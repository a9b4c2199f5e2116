use drone_control::arbiter::{ActiveCommand, Command};
use drone_control::heartbeat::{create_heartbeat, Heartbeat, DEFAULT_CTRL_BITS};
use drone_control::trace::{replay, ScheduledTick};

fn standby() -> Heartbeat {
    create_heartbeat(DEFAULT_CTRL_BITS)
}

fn payload(tag: u8) -> Heartbeat {
    create_heartbeat([tag, 0x80, 0x80, 0x80, 0x00])
}

fn at(now: u64, tag: u8, duration: u64, priority: u32) -> ScheduledTick {
    ScheduledTick { now, request: Some(Command { payload: payload(tag), duration, priority }) }
}

fn quiet(now: u64) -> ScheduledTick {
    ScheduledTick { now, request: None }
}

fn next_random(state: &mut u64) -> u64 {
    *state = state.wrapping_mul(6364136223846793005).wrapping_add(1442695040888963407);
    *state >> 33
}

fn was_installed(schedule: &Vec<ScheduledTick>, j: usize) -> bool {
    let request = match schedule[j].request {
        Some(request) => request,
        None => return false,
    };
    match replay(standby(), &schedule[..j].to_vec()).active() {
        Some(active) => request.priority >= active.priority,
        None => true,
    }
}

fn was_outranked(schedule: &Vec<ScheduledTick>, j: usize) -> bool {
    let own = schedule[j].request.unwrap().priority;
    schedule[j + 1..].iter().any(|tick| match tick.request {
        Some(later) => later.priority >= own,
        None => false,
    })
}

fn has_lapsed(schedule: &Vec<ScheduledTick>, j: usize) -> bool {
    let expiry = schedule[j].now as u128 + schedule[j].request.unwrap().duration as u128;
    schedule[j..].iter().any(|tick| tick.now as u128 >= expiry)
}

fn is_live(schedule: &Vec<ScheduledTick>, j: usize) -> bool {
    schedule[j].request.is_some() && !was_outranked(schedule, j) && !has_lapsed(schedule, j)
}

fn entry(schedule: &Vec<ScheduledTick>, j: usize) -> ActiveCommand {
    let request = schedule[j].request.unwrap();
    ActiveCommand {
        payload: request.payload,
        installed_at: schedule[j].now,
        duration: request.duration,
        priority: request.priority,
    }
}

fn random_schedule(state: &mut u64, ordered: bool) -> Vec<ScheduledTick> {
    let length = (next_random(state) % 9) as usize;
    let mut now: u64 = 0;
    let mut schedule = Vec::new();
    for index in 0..length {
        if ordered {
            now += next_random(state) % 40;
        } else {
            now = next_random(state) % 200;
        }
        if next_random(state) % 3 == 0 {
            schedule.push(quiet(now));
        } else {
            let duration = next_random(state) % 120;
            let priority = (next_random(state) % 4) as u32;
            schedule.push(at(now, index as u8, duration, priority));
        }
    }
    schedule
}

#[test]
fn empty_schedule_leaves_the_slot_empty() {
    let arbiter = replay(standby(), &vec![]);
    assert_eq!(arbiter.active(), None);
    assert_eq!(arbiter.current_payload(), standby());
}

#[test]
fn replay_takes_the_ticks_in_order() {
    let schedule = vec![at(0, 1, 100, 2), at(10, 2, 100, 1), at(20, 3, 100, 2), quiet(119)];
    let arbiter = replay(standby(), &schedule);
    assert_eq!(
        arbiter.active(),
        Some(ActiveCommand { payload: payload(3), installed_at: 20, duration: 100, priority: 2 })
    );
    assert_eq!(arbiter.current_payload(), payload(3));
    let mut longer = schedule.clone();
    longer.push(quiet(120));
    assert_eq!(replay(standby(), &longer).active(), None);
}

#[test]
fn slot_holds_the_request_in_force() {
    let mut state: u64 = 0x0dd_ba11;
    for round in 0..4000 {
        let schedule = random_schedule(&mut state, round % 2 == 0);
        let held = replay(standby(), &schedule).active();
        let in_force: Vec<usize> = (0..schedule.len())
            .filter(|j| was_installed(&schedule, *j) && is_live(&schedule, *j))
            .collect();
        assert!(in_force.len() <= 1, "{:?}", schedule);
        match held {
            Some(active) => {
                assert_eq!(in_force.len(), 1, "{:?}", schedule);
                assert_eq!(active, entry(&schedule, in_force[0]), "{:?}", schedule);
            },
            None => assert!(in_force.is_empty(), "{:?}", schedule),
        }
    }
}

#[test]
fn slot_holds_the_highest_live_request_unless_one_was_dropped() {
    let mut state: u64 = 0x5eed_cafe;
    let mut covered = 0;
    for _ in 0..4000 {
        let schedule = random_schedule(&mut state, true);
        let held = replay(standby(), &schedule).active();
        let live: Vec<usize> = (0..schedule.len()).filter(|j| is_live(&schedule, *j)).collect();
        let holder = (0..schedule.len())
            .find(|j| was_installed(&schedule, *j) && is_live(&schedule, *j));
        let spent = live.iter().all(|j| {
            was_installed(&schedule, *j) || matches!(holder, Some(s) if s < *j)
        });
        let mut top: Option<usize> = None;
        for j in live.iter() {
            let better = match top {
                Some(t) => {
                    schedule[*j].request.unwrap().priority >= schedule[t].request.unwrap().priority
                },
                None => true,
            };
            if better {
                top = Some(*j);
            }
        }
        if spent {
            covered += 1;
            assert_eq!(held, top.map(|t| entry(&schedule, t)), "{:?}", schedule);
        } else {
            assert_ne!(held, top.map(|t| entry(&schedule, t)), "{:?}", schedule);
        }
    }
    assert!(covered > 1000);
}

#[test]
fn dropped_request_that_outlives_its_bar_is_not_sent() {
    let schedule = vec![at(0, 1, 100, 5), at(50, 2, 1000, 3), quiet(200)];
    assert!(!was_installed(&schedule, 1));
    assert!(is_live(&schedule, 1));
    let arbiter = replay(standby(), &schedule);
    assert_eq!(arbiter.active(), None);
    assert_eq!(arbiter.current_payload(), standby());
}

#[test]
fn lapse_is_seen_at_the_last_tick_when_time_is_ordered() {
    let mut state: u64 = 0xfeed;
    for _ in 0..2000 {
        let schedule = random_schedule(&mut state, true);
        for j in 0..schedule.len() {
            if let Some(request) = schedule[j].request {
                let last = schedule[schedule.len() - 1].now;
                assert_eq!(has_lapsed(&schedule, j), last >= schedule[j].now + request.duration);
            }
        }
    }
}
