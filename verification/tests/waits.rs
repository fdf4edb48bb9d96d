use kinesis::DeviceError;
use kinesis::codec::{home_frame, status_request_frame, velocity_params_frame};
use kinesis::motion::{
    after_write, command_frame, home_wait_step, home_wait_verdict, homing_in_progress, in_motion,
    move_wait_step, move_wait_verdict, Command, FollowUp, HomeWaitState, MoveWaitState,
    HOMING_POLL_INTERVAL_MS, HOMING_TIMEOUT_MS, MOVE_POLL_INTERVAL_MS, MOVE_TIMEOUT_MS,
};

#[test]
fn wait_constants() {
    assert_eq!(HOMING_TIMEOUT_MS, 15000);
    assert_eq!(HOMING_POLL_INTERVAL_MS, 100);
    assert_eq!(MOVE_TIMEOUT_MS, 5000);
    assert_eq!(MOVE_POLL_INTERVAL_MS, 10);
}

#[test]
fn status_predicates() {
    assert!(homing_in_progress(0x200));
    assert!(!homing_in_progress(0x400));
    assert!(in_motion(0x10));
    assert!(in_motion(0x20));
    assert!(!in_motion(0x2400));
}

#[test]
fn home_wait_done_on_first_clear_poll() {
    // scripted transport: first poll already reports homing clear (homed bit set)
    assert_eq!(home_wait_step(0x400, 0), HomeWaitState::Done);
    // a clear homing bit finishes the wait even past the budget
    assert_eq!(home_wait_step(0x400, 20000), HomeWaitState::Done);
}

#[test]
fn home_wait_times_out_when_always_homing() {
    // scripted transport: every poll reports homing in progress
    let mut elapsed_ms: u64 = 0;
    let mut polls: u64 = 0;
    loop {
        match home_wait_step(0x200, elapsed_ms) {
            HomeWaitState::Homing => {
                elapsed_ms += HOMING_POLL_INTERVAL_MS;
                polls += 1;
                assert!(polls <= 1000);
            }
            HomeWaitState::Done => panic!("homing reported done while still in progress"),
            HomeWaitState::TimedOut => break,
        }
    }
    assert!(elapsed_ms >= 15000);
}

#[test]
fn move_wait_done_as_soon_as_motion_bits_clear() {
    // other bits (settled, homed, homing) do not keep the wait alive
    assert_eq!(move_wait_step(0x2400, 0), MoveWaitState::Done);
    assert_eq!(move_wait_step(0x200, 100), MoveWaitState::Done);
    assert_eq!(move_wait_step(0, 0), MoveWaitState::Done);
    // either motion bit alone keeps it polling
    assert_eq!(move_wait_step(0x10, 0), MoveWaitState::Moving);
    assert_eq!(move_wait_step(0x20, 0), MoveWaitState::Moving);
}

#[test]
fn move_wait_polls_at_move_cadence_until_timeout() {
    // scripted transport: the stage never stops moving
    let mut elapsed_ms: u64 = 0;
    let mut polls: u64 = 0;
    loop {
        match move_wait_step(0x30, elapsed_ms) {
            MoveWaitState::Moving => {
                elapsed_ms += MOVE_POLL_INTERVAL_MS;
                polls += 1;
                assert!(polls <= 10000);
            }
            MoveWaitState::Done => panic!("move reported done while still in motion"),
            MoveWaitState::TimedOut => break,
        }
    }
    assert!(elapsed_ms >= 5000);
    // ~10 ms cadence: the budget is exhausted in about budget / interval polls
    assert_eq!(polls, MOVE_TIMEOUT_MS / MOVE_POLL_INTERVAL_MS + 1);
}

#[test]
fn exhausted_budget_surfaces_timeout_error() {
    // homing still in progress past the 15 s budget
    let state = home_wait_step(0x200, 15001);
    assert_eq!(home_wait_verdict(&state), Some(Err(DeviceError::Timeout)));
    // still in motion past the 5 s budget
    let state = move_wait_step(0x10, 5001);
    assert_eq!(move_wait_verdict(&state), Some(Err(DeviceError::Timeout)));
}

#[test]
fn wait_verdicts_follow_the_states() {
    assert_eq!(home_wait_verdict(&HomeWaitState::Homing), None);
    assert_eq!(home_wait_verdict(&HomeWaitState::Done), Some(Ok(())));
    assert_eq!(home_wait_verdict(&HomeWaitState::TimedOut), Some(Err(DeviceError::Timeout)));
    assert_eq!(move_wait_verdict(&MoveWaitState::Moving), None);
    assert_eq!(move_wait_verdict(&MoveWaitState::Done), Some(Ok(())));
    assert_eq!(move_wait_verdict(&MoveWaitState::TimedOut), Some(Err(DeviceError::Timeout)));
}

#[test]
fn command_frames_match_builders() {
    assert_eq!(command_frame(&Command::GetStatus, 0x01), status_request_frame(0x01));
    assert_eq!(command_frame(&Command::Home, 0x01), home_frame(0x01));
    assert_eq!(
        command_frame(&Command::SetVelocityParams { min_vel: 0, accel: 147, max_vel: 429417 }, 0x01),
        velocity_params_frame(0, 147, 429417)
    );
    assert_eq!(command_frame(&Command::MoveRelative { counts: 7 }, 0x01)[0], 0x48);
    assert_eq!(command_frame(&Command::MoveAbsolute { counts: 7 }, 0x01)[0], 0x53);
}

#[test]
fn write_failure_surfaces_transport_error_for_every_command() {
    let commands = [
        Command::GetStatus,
        Command::SetVelocityParams { min_vel: 0, accel: 1, max_vel: 2 },
        Command::Home,
        Command::MoveRelative { counts: 5 },
        Command::MoveAbsolute { counts: -5 },
    ];
    for cmd in commands {
        assert_eq!(after_write(&cmd, false), Err(DeviceError::Transport));
    }
}

#[test]
fn follow_up_after_successful_write() {
    assert_eq!(after_write(&Command::GetStatus, true), Ok(FollowUp::ReadStatusReply));
    assert_eq!(
        after_write(&Command::SetVelocityParams { min_vel: 0, accel: 1, max_vel: 2 }, true),
        Ok(FollowUp::Finished)
    );
    assert_eq!(after_write(&Command::Home, true), Ok(FollowUp::AwaitHoming));
    assert_eq!(after_write(&Command::MoveRelative { counts: 5 }, true), Ok(FollowUp::AwaitMove));
    assert_eq!(after_write(&Command::MoveAbsolute { counts: 5 }, true), Ok(FollowUp::AwaitMove));
}
