use veil::admin::{InitConfig, Pause, SetErAuthority, Unpause};
use veil::er::Commit;
use veil::error::VeilProgramError;
use veil::schedule::{DelegateSchedule, ExecuteSettlement, UndelegateSchedule};
use veil::state::{is_zero_address, same_address, Address, ScheduleAccount, ScheduleStatus, VeilConfig};

fn addr(n: u8) -> Address {
    [n; 32]
}

fn config() -> VeilConfig {
    VeilConfig {
        er_authority: addr(2),
        governance: addr(1),
        paused: false,
        max_recipients: 16,
        allowed_mint: addr(3),
        batch_timeout_secs: 86_400,
    }
}

fn schedule(status: ScheduleStatus) -> ScheduleAccount {
    ScheduleAccount {
        employer: addr(4),
        vault: addr(5),
        status,
        interval_secs: 60,
        next_execution: 100,
        reserved_amount: 10,
        per_execution_amount: 5,
        er_job_id: [0; 32],
        merkle_root: [0; 32],
        total_recipients: 1,
        paid_count: 0,
        paid_bitmap: [0; 128],
        last_executed_batch: 0,
        bump: 0,
    }
}

#[test]
fn init_config_writes_an_unpaused_config() {
    let mut init = InitConfig { admin: addr(9), config: config() };
    init.config.paused = true;
    let event = init.init_config(addr(11), addr(12), addr(13), 64, 3600).unwrap();
    assert_eq!(event.max_recipients, 64);
    assert_eq!(init.config.governance, addr(11));
    assert_eq!(init.config.er_authority, addr(12));
    assert_eq!(init.config.allowed_mint, addr(13));
    assert_eq!(init.config.max_recipients, 64);
    assert_eq!(init.config.batch_timeout_secs, 3600);
    assert!(!init.config.paused);
}

#[test]
fn init_config_rejections() {
    let mut init = InitConfig { admin: addr(9), config: config() };
    assert_eq!(
        init.init_config(addr(11), addr(12), addr(13), 0, 3600).unwrap_err(),
        VeilProgramError::InvalidMaxRecipients
    );
    assert_eq!(
        init.init_config(addr(11), [0; 32], addr(13), 8, 3600).unwrap_err(),
        VeilProgramError::InvalidErAuthority
    );
    assert_eq!(
        init.init_config(addr(11), addr(12), [0; 32], 8, 3600).unwrap_err(),
        VeilProgramError::InvalidErAuthority
    );
    assert_eq!(
        init.init_config(addr(11), addr(12), addr(13), 8, 3599).unwrap_err(),
        VeilProgramError::InvalidBatchTimeout
    );
    assert_eq!(
        init.init_config(addr(11), addr(12), addr(13), 8, 2_592_001).unwrap_err(),
        VeilProgramError::InvalidBatchTimeout
    );
    assert!(init.init_config(addr(11), addr(12), addr(13), 8, 2_592_000).is_ok());
    assert_eq!(init.config.er_authority, addr(12));
}

#[test]
fn pause_and_unpause_by_governance_only() {
    let mut pause = Pause { config: config(), governance: addr(1) };
    let mut outsider = Pause { config: config(), governance: addr(50) };
    assert_eq!(outsider.pause(1).unwrap_err(), VeilProgramError::Unauthorized);
    assert!(!outsider.config.paused);
    assert_eq!(pause.pause(10).unwrap().timestamp, 10);
    assert!(pause.config.paused);
    assert_eq!(pause.pause(11).unwrap_err(), VeilProgramError::Paused);

    let mut unpause = Unpause { config: pause.config, governance: addr(1) };
    let mut outsider = Unpause { config: pause.config, governance: addr(50) };
    assert_eq!(outsider.unpause(12).unwrap_err(), VeilProgramError::Unauthorized);
    assert_eq!(unpause.unpause(12).unwrap().governance, addr(1));
    assert!(!unpause.config.paused);
    assert_eq!(unpause.unpause(13).unwrap_err(), VeilProgramError::NotPaused);
}

#[test]
fn er_authority_replacement() {
    let mut set = SetErAuthority { config: config(), governance: addr(1) };
    let event = set.set_er_auth(addr(20), 5).unwrap();
    assert_eq!(event.old_er_authority, addr(2));
    assert_eq!(event.new_er_authority, addr(20));
    assert_eq!(set.config.er_authority, addr(20));
    assert_eq!(set.set_er_auth([0; 32], 6).unwrap_err(), VeilProgramError::InvalidErAuthority);
    let mut outsider = SetErAuthority { config: config(), governance: addr(9) };
    assert_eq!(outsider.set_er_auth(addr(21), 7).unwrap_err(), VeilProgramError::Unauthorized);
    let mut halted = SetErAuthority { config: config(), governance: addr(1) };
    halted.config.paused = true;
    assert_eq!(halted.set_er_auth(addr(21), 7).unwrap_err(), VeilProgramError::Paused);
    assert_eq!(halted.config.er_authority, addr(2));
}

#[test]
fn schedule_delegation_guards() {
    let d = DelegateSchedule {
        payer: addr(1),
        config: config(),
        schedule_key: addr(8),
        schedule: schedule(ScheduleStatus::Active),
        pda: addr(8),
    };
    assert_eq!(d.delegate_schedule(3).unwrap().schedule, addr(8));
    let mut paused_schedule = d;
    paused_schedule.schedule.status = ScheduleStatus::Paused;
    assert_eq!(paused_schedule.delegate_schedule(3).unwrap_err(), VeilProgramError::ScheduleNotActive);
    let mut wrong = d;
    wrong.pda = addr(9);
    assert_eq!(wrong.delegate_schedule(3).unwrap_err(), VeilProgramError::InvalidScheduleId);
    let mut halted = d;
    halted.config.paused = true;
    assert_eq!(halted.delegate_schedule(3).unwrap_err(), VeilProgramError::Paused);

    let u = UndelegateSchedule {
        payer: addr(1),
        config: config(),
        schedule_key: addr(8),
        schedule: schedule(ScheduleStatus::Cancelled),
        pda: addr(8),
        buffer: addr(30),
    };
    assert_eq!(u.undelegate_schedule(4).unwrap().timestamp, 4);
    let mut wrong = u;
    wrong.pda = addr(9);
    assert_eq!(wrong.undelegate_schedule(4).unwrap_err(), VeilProgramError::InvalidScheduleId);
}

#[test]
fn commit_only_while_running() {
    let c = Commit { payer: addr(1), config: config(), delegated_account: addr(5) };
    assert_eq!(c.commit(9).unwrap().account, addr(5));
    let mut halted = c;
    halted.config.paused = true;
    assert_eq!(halted.commit(9).unwrap_err(), VeilProgramError::Paused);
}

#[test]
fn execute_settlement_does_nothing() {
    let mut e = ExecuteSettlement { admin: addr(1) };
    assert!(e.execute_settlement().is_ok());
    assert_eq!(e.admin, addr(1));
}

#[test]
fn address_helpers() {
    assert!(same_address(&addr(4), &addr(4)));
    assert!(!same_address(&addr(4), &addr(5)));
    assert!(is_zero_address(&[0; 32]));
    let mut a = [0u8; 32];
    a[31] = 1;
    assert!(!is_zero_address(&a));
}
