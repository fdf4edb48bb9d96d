//! Motion control decisions: which frame each operation sends, what follows
//! a write, and the polling state machines that wait for homing and move
//! completion.
//!
//! The protocol offers no asynchronous completion notice, so the driver
//! samples the status word until a completion predicate holds or a fixed
//! wall-clock budget runs out. Homing is slow, so it is polled at a relaxed
//! cadence with a generous budget; short moves are polled rapidly with a
//! tight budget. The caller runs the byte I/O and the clock; every decision
//! taken on what came back is made here.
use vstd::prelude::*;
use crate::DeviceError;
use crate::codec::{
    MGMSG_MOVE_ABSOLUTE, MGMSG_MOVE_HOME, MGMSG_MOVE_RELATIVE, MGMSG_REQ_STATUS_BITS,
    MGMSG_SET_VELOCITY_PARAMS, P_MOT_SB_HOMING, P_MOT_SB_INMOTIONCCW, P_MOT_SB_INMOTIONCW,
    home_frame, move_absolute_frame, move_relative_frame, spec_counts_le_bytes, spec_long_frame,
    spec_short_frame, status_request_frame, velocity_params_frame,
};

verus! {

/// Poll budget for the homing wait, in milliseconds.
pub const HOMING_TIMEOUT_MS: u64 = 15000;
/// Pause between status polls while homing, in milliseconds.
pub const HOMING_POLL_INTERVAL_MS: u64 = 100;
/// Poll budget for the move wait, in milliseconds.
pub const MOVE_TIMEOUT_MS: u64 = 5000;
/// Pause between status polls while moving, in milliseconds.
pub const MOVE_POLL_INTERVAL_MS: u64 = 10;

/// Whether the status word reports the homing sequence still in progress.
pub open spec fn spec_homing_in_progress(status: u32) -> bool {
    status & P_MOT_SB_HOMING != 0
}

/// Whether the status word reports the stage moving in either direction.
pub open spec fn spec_in_motion(status: u32) -> bool {
    status & P_MOT_SB_INMOTIONCW != 0 || status & P_MOT_SB_INMOTIONCCW != 0
}

/// Whether the status word reports the homing sequence still in progress.
pub fn homing_in_progress(status: u32) -> (r: bool)
    ensures
        r == spec_homing_in_progress(status),
{
    status & P_MOT_SB_HOMING != 0
}

/// Whether the status word reports the stage moving in either direction.
pub fn in_motion(status: u32) -> (r: bool)
    ensures
        r == spec_in_motion(status),
{
    status & P_MOT_SB_INMOTIONCW != 0 || status & P_MOT_SB_INMOTIONCCW != 0
}

/// State of the wait that follows a home command.
#[derive(Clone, Copy, Debug, PartialEq, Eq, Structural)]
pub enum HomeWaitState {
    /// The device still reports homing; poll again after the homing pause.
    Homing,
    /// Homing has finished.
    Done,
    /// The poll budget ran out while the device still reported homing.
    TimedOut,
}

/// State of the wait that follows a move command.
#[derive(Clone, Copy, Debug, PartialEq, Eq, Structural)]
pub enum MoveWaitState {
    /// The stage still reports motion; poll again after the move pause.
    Moving,
    /// The move has finished.
    Done,
    /// The poll budget ran out while the stage still reported motion.
    TimedOut,
}

/// One decision of the homing wait, from the polled status word and the
/// wall-clock time elapsed since the wait began. Completion is checked
/// before the budget, so a clear homing bit finishes the wait even on a
/// late poll.
pub open spec fn spec_home_wait_step(status: u32, elapsed_ms: u64) -> HomeWaitState {
    if !spec_homing_in_progress(status) {
        HomeWaitState::Done
    } else if elapsed_ms > HOMING_TIMEOUT_MS {
        HomeWaitState::TimedOut
    } else {
        HomeWaitState::Homing
    }
}

/// One decision of the move wait, from the polled status word and the
/// wall-clock time elapsed since the wait began. Completion is checked
/// before the budget, so clear motion bits finish the wait even on a late
/// poll.
pub open spec fn spec_move_wait_step(status: u32, elapsed_ms: u64) -> MoveWaitState {
    if !spec_in_motion(status) {
        MoveWaitState::Done
    } else if elapsed_ms > MOVE_TIMEOUT_MS {
        MoveWaitState::TimedOut
    } else {
        MoveWaitState::Moving
    }
}

/// Takes one decision of the homing wait.
pub fn home_wait_step(status: u32, elapsed_ms: u64) -> (s: HomeWaitState)
    ensures
        s == spec_home_wait_step(status, elapsed_ms),
{
    if !homing_in_progress(status) {
        HomeWaitState::Done
    } else if elapsed_ms > HOMING_TIMEOUT_MS {
        HomeWaitState::TimedOut
    } else {
        HomeWaitState::Homing
    }
}

/// Takes one decision of the move wait.
pub fn move_wait_step(status: u32, elapsed_ms: u64) -> (s: MoveWaitState)
    ensures
        s == spec_move_wait_step(status, elapsed_ms),
{
    if !in_motion(status) {
        MoveWaitState::Done
    } else if elapsed_ms > MOVE_TIMEOUT_MS {
        MoveWaitState::TimedOut
    } else {
        MoveWaitState::Moving
    }
}

/// The homing wait finishes in Done on any poll whose status has the homing
/// bit clear, whatever the elapsed time; while the device keeps reporting
/// homing, it times out exactly when the elapsed time exceeds the homing
/// budget, and otherwise keeps polling.
pub proof fn lemma_home_wait_decision(status: u32, elapsed_ms: u64)
    ensures
        !spec_homing_in_progress(status) ==> spec_home_wait_step(status, elapsed_ms)
            == HomeWaitState::Done,
        spec_homing_in_progress(status) && elapsed_ms > HOMING_TIMEOUT_MS ==> spec_home_wait_step(
            status,
            elapsed_ms,
        ) == HomeWaitState::TimedOut,
        spec_homing_in_progress(status) && elapsed_ms <= HOMING_TIMEOUT_MS ==> spec_home_wait_step(
            status,
            elapsed_ms,
        ) == HomeWaitState::Homing,
{
}

/// The move wait finishes in Done as soon as both motion bits are clear,
/// whatever the other status bits hold and whatever the elapsed time; while
/// either motion bit stays set it keeps polling at the rapid move cadence
/// until the move budget is exceeded, and then times out.
pub proof fn lemma_move_wait_decision(status: u32, elapsed_ms: u64)
    ensures
        !spec_in_motion(status) ==> spec_move_wait_step(status, elapsed_ms) == MoveWaitState::Done,
        spec_in_motion(status) && elapsed_ms > MOVE_TIMEOUT_MS ==> spec_move_wait_step(
            status,
            elapsed_ms,
        ) == MoveWaitState::TimedOut,
        spec_in_motion(status) && elapsed_ms <= MOVE_TIMEOUT_MS ==> spec_move_wait_step(
            status,
            elapsed_ms,
        ) == MoveWaitState::Moving,
        MOVE_POLL_INTERVAL_MS == 10,
{
}

/// What the homing wait hands its caller: nothing while it still polls,
/// success once homing is done, and the timeout error once the budget ran
/// out.
pub fn home_wait_verdict(s: &HomeWaitState) -> (r: Option<Result<(), DeviceError>>)
    ensures
        *s is Homing ==> r is None,
        *s is Done ==> r == Some(Ok::<(), DeviceError>(())),
        *s is TimedOut ==> r == Some(Err::<(), DeviceError>(DeviceError::Timeout)),
{
    match s {
        HomeWaitState::Homing => Option::None,
        HomeWaitState::Done => Some(Ok(())),
        HomeWaitState::TimedOut => Some(Err(DeviceError::Timeout)),
    }
}

/// What the move wait hands its caller: nothing while it still polls,
/// success once motion has stopped, and the timeout error once the budget
/// ran out.
pub fn move_wait_verdict(s: &MoveWaitState) -> (r: Option<Result<(), DeviceError>>)
    ensures
        *s is Moving ==> r is None,
        *s is Done ==> r == Some(Ok::<(), DeviceError>(())),
        *s is TimedOut ==> r == Some(Err::<(), DeviceError>(DeviceError::Timeout)),
{
    match s {
        MoveWaitState::Moving => Option::None,
        MoveWaitState::Done => Some(Ok(())),
        MoveWaitState::TimedOut => Some(Err(DeviceError::Timeout)),
    }
}

/// The homing wait cannot poll forever: every poll taken once the homing
/// budget has elapsed decides, in Done or TimedOut, so at the homing
/// cadence the wait takes no more polls than the budget divided by the
/// pause between polls, plus one.
pub proof fn lemma_home_wait_bounded(status: u32, elapsed_ms: u64)
    requires
        elapsed_ms > HOMING_TIMEOUT_MS,
    ensures
        spec_home_wait_step(status, elapsed_ms) != HomeWaitState::Homing,
{
}

/// The move wait cannot poll forever: every poll taken once the move budget
/// has elapsed decides, in Done or TimedOut.
pub proof fn lemma_move_wait_bounded(status: u32, elapsed_ms: u64)
    requires
        elapsed_ms > MOVE_TIMEOUT_MS,
    ensures
        spec_move_wait_step(status, elapsed_ms) != MoveWaitState::Moving,
{
}

/// One operation the controller can ask of the device.
#[derive(Clone, Copy, Debug, PartialEq, Eq, Structural)]
pub enum Command {
    /// Request the status bit word.
    GetStatus,
    /// Set the velocity parameters, all in counts.
    SetVelocityParams { min_vel: i32, accel: i32, max_vel: i32 },
    /// Start the homing sequence.
    Home,
    /// Move by a relative distance in counts.
    MoveRelative { counts: i32 },
    /// Move to an absolute position in counts.
    MoveAbsolute { counts: i32 },
}

/// The frame that a command puts on the wire for one device.
pub open spec fn spec_command_frame(cmd: Command, device_id: u8) -> Seq<u8> {
    match cmd {
        Command::GetStatus => spec_short_frame(MGMSG_REQ_STATUS_BITS, device_id, 0x00),
        Command::SetVelocityParams { min_vel, accel, max_vel } => spec_long_frame(
            MGMSG_SET_VELOCITY_PARAMS,
            spec_counts_le_bytes(min_vel) + spec_counts_le_bytes(accel) + spec_counts_le_bytes(
                max_vel,
            ),
        ),
        Command::Home => spec_short_frame(MGMSG_MOVE_HOME, device_id, 0x00),
        Command::MoveRelative { counts } => spec_long_frame(
            MGMSG_MOVE_RELATIVE,
            spec_counts_le_bytes(counts),
        ),
        Command::MoveAbsolute { counts } => spec_long_frame(
            MGMSG_MOVE_ABSOLUTE,
            spec_counts_le_bytes(counts),
        ),
    }
}

/// Builds the frame that a command puts on the wire for one device.
pub fn command_frame(cmd: &Command, device_id: u8) -> (r: Vec<u8>)
    ensures
        r@ == spec_command_frame(*cmd, device_id),
{
    match cmd {
        Command::GetStatus => status_request_frame(device_id),
        Command::SetVelocityParams { min_vel, accel, max_vel } => velocity_params_frame(
            *min_vel,
            *accel,
            *max_vel,
        ),
        Command::Home => home_frame(device_id),
        Command::MoveRelative { counts } => move_relative_frame(*counts),
        Command::MoveAbsolute { counts } => move_absolute_frame(*counts),
    }
}

/// What the driver does after a command frame has gone out.
#[derive(Clone, Copy, Debug, PartialEq, Eq, Structural)]
pub enum FollowUp {
    /// Read the fixed-size status reply.
    ReadStatusReply,
    /// Enter the homing wait.
    AwaitHoming,
    /// Enter the move wait.
    AwaitMove,
    /// Nothing: the command is fire-and-forget.
    Finished,
}

/// What follows a successful write of each command: a status request awaits
/// its reply, home and the moves enter their waits, and setting velocity
/// parameters awaits no confirmation.
pub open spec fn spec_follow_up(cmd: Command) -> FollowUp {
    match cmd {
        Command::GetStatus => FollowUp::ReadStatusReply,
        Command::SetVelocityParams { .. } => FollowUp::Finished,
        Command::Home => FollowUp::AwaitHoming,
        Command::MoveRelative { .. } => FollowUp::AwaitMove,
        Command::MoveAbsolute { .. } => FollowUp::AwaitMove,
    }
}

/// The decision taken once the initial write of a command has succeeded or
/// failed: a failed write surfaces a transport error at once, a successful
/// one hands back what to do next.
pub open spec fn spec_after_write(cmd: Command, write_ok: bool) -> Result<FollowUp, DeviceError> {
    if write_ok {
        Ok(spec_follow_up(cmd))
    } else {
        Err(DeviceError::Transport)
    }
}

/// Decides what follows the initial write of a command.
pub fn after_write(cmd: &Command, write_ok: bool) -> (r: Result<FollowUp, DeviceError>)
    ensures
        r == spec_after_write(*cmd, write_ok),
{
    if !write_ok {
        return Err(DeviceError::Transport);
    }
    match cmd {
        Command::GetStatus => Ok(FollowUp::ReadStatusReply),
        Command::SetVelocityParams { .. } => Ok(FollowUp::Finished),
        Command::Home => Ok(FollowUp::AwaitHoming),
        Command::MoveRelative { .. } => Ok(FollowUp::AwaitMove),
        Command::MoveAbsolute { .. } => Ok(FollowUp::AwaitMove),
    }
}

/// A failed initial write surfaces a transport error for every command, and
/// asks for nothing further: no reply is read and no wait is entered.
pub proof fn lemma_failed_write_surfaces_transport_error(cmd: Command)
    ensures
        spec_after_write(cmd, false) == Err::<FollowUp, DeviceError>(DeviceError::Transport),
{
}

} // verus!
