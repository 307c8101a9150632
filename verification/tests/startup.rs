use p2p_zones::startup::{
    zone_start_outcome, Action, Event, NetworkInterfaces, Startup, StartupError, ZoneOutcome,
};

type Machine = Startup<&'static str, &'static str, u32, &'static str>;
type Report = Event<&'static str, &'static str, u32, &'static str>;

#[test]
fn network_interfaces_new_keeps_both_interfaces() {
    let interfaces = NetworkInterfaces::new("clearnet", Some("i2p"));
    assert_eq!(interfaces.clearnet_network_interface, "clearnet");
    assert_eq!(interfaces.i2p_network_interface, Some("i2p"));
    let alone: NetworkInterfaces<&str, &str> = NetworkInterfaces::new("clearnet", None);
    assert_eq!(alone.i2p_network_interface, None);
}

#[test]
fn startup_begins_with_clearnet() {
    assert_eq!(Machine::new(false).pending(), Action::StartClearnet);
    assert_eq!(Machine::new(true).pending(), Action::StartClearnet);
}

#[test]
fn both_zones_come_up() {
    let state = Machine::new(true);
    let (state, action) = state.step(Report::ClearnetStarted { clearnet: "clearnet", resolver: 1 });
    assert_eq!(action, Action::StartI2p);
    let (state, action) = state.step(Report::I2pStarted { i2p: "i2p", resolver: 2 });
    assert_eq!(action, Action::Finish);
    let (interfaces, resolvers) = state.finish().ok().unwrap();
    assert_eq!(interfaces.clearnet_network_interface, "clearnet");
    assert_eq!(interfaces.i2p_network_interface, Some("i2p"));
    assert_eq!(resolvers, vec![1, 2]);
}

#[test]
fn disabled_i2p_is_not_attempted() {
    let state = Machine::new(false);
    let (state, action) = state.step(Report::ClearnetStarted { clearnet: "clearnet", resolver: 1 });
    assert_eq!(action, Action::Finish);
    assert!(matches!(state, Startup::Running { i2p: ZoneOutcome::Disabled, .. }));
    let (interfaces, resolvers) = state.finish().ok().unwrap();
    assert_eq!(interfaces.clearnet_network_interface, "clearnet");
    assert_eq!(interfaces.i2p_network_interface, None);
    assert_eq!(resolvers, vec![1]);
}

#[test]
fn failing_optional_zone_leaves_the_node_running() {
    let state = Machine::new(true);
    let (state, _) = state.step(Report::ClearnetStarted { clearnet: "clearnet", resolver: 1 });
    let (state, action) = state.step(Report::I2pFailed { error: "no router" });
    assert_eq!(action, Action::Finish);
    assert!(matches!(
        state,
        Startup::Running { i2p: ZoneOutcome::Failed { error: "no router" }, .. }
    ));
    let (interfaces, resolvers) = state.finish().ok().unwrap();
    assert_eq!(interfaces.clearnet_network_interface, "clearnet");
    assert_eq!(interfaces.i2p_network_interface, None);
    assert_eq!(resolvers, vec![1]);
}

#[test]
fn failing_mandatory_zone_fails_the_startup() {
    for i2p_enabled in [false, true] {
        let state = Machine::new(i2p_enabled);
        let (state, action) = state.step(Report::ClearnetFailed { error: "port taken" });
        assert_eq!(action, Action::Abort);
        assert!(matches!(
            state.finish(),
            Err(StartupError::ClearnetFailed("port taken"))
        ));
    }
}

#[test]
fn an_outcome_out_of_turn_fails_the_startup() {
    let (state, action) = Machine::new(true).step(Report::I2pStarted { i2p: "i2p", resolver: 2 });
    assert_eq!(action, Action::Abort);
    assert!(matches!(state.finish(), Err(StartupError::OutOfTurn)));

    let (state, _) = Machine::new(true).step(Report::ClearnetStarted { clearnet: "c", resolver: 1 });
    let (state, action) = state.step(Report::ClearnetStarted { clearnet: "d", resolver: 3 });
    assert_eq!(action, Action::Abort);
    assert!(matches!(state.finish(), Err(StartupError::OutOfTurn)));
}

#[test]
fn a_startup_that_has_ended_stays_as_it_is() {
    let (state, _) = Machine::new(false).step(Report::ClearnetStarted { clearnet: "c", resolver: 1 });
    let (state, action) = state.step(Report::I2pFailed { error: "late" });
    assert_eq!(action, Action::Finish);
    let (interfaces, resolvers) = state.finish().ok().unwrap();
    assert_eq!(interfaces.clearnet_network_interface, "c");
    assert_eq!(resolvers, vec![1]);

    let (state, _) = Machine::new(false).step(Report::ClearnetFailed { error: "first" });
    let (state, action) = state.step(Report::ClearnetStarted { clearnet: "c", resolver: 1 });
    assert_eq!(action, Action::Abort);
    assert!(matches!(state.finish(), Err(StartupError::ClearnetFailed("first"))));
}

#[test]
fn finishing_early_is_out_of_turn() {
    assert!(matches!(Machine::new(true).finish(), Err(StartupError::OutOfTurn)));
    let (state, _) = Machine::new(true).step(Report::ClearnetStarted { clearnet: "c", resolver: 1 });
    assert!(matches!(state.finish(), Err(StartupError::OutOfTurn)));
}

#[test]
fn events_are_made_from_start_outcomes() {
    assert!(matches!(
        Report::clearnet(Ok(("c", 1))),
        Event::ClearnetStarted { clearnet: "c", resolver: 1 }
    ));
    assert!(matches!(Report::clearnet(Err("e")), Event::ClearnetFailed { error: "e" }));
    assert!(matches!(Report::i2p(Ok(("i", 2))), Event::I2pStarted { i2p: "i", resolver: 2 }));
    assert!(matches!(Report::i2p(Err("e")), Event::I2pFailed { error: "e" }));
}

#[test]
fn a_started_zone_is_paired_with_its_resolver() {
    let up: Result<&str, &str> = Ok("interface");
    assert_eq!(zone_start_outcome(up, 5), Ok(("interface", 5)));
    let down: Result<&str, &str> = Err("unreachable");
    assert_eq!(zone_start_outcome(down, 5), Err("unreachable"));
}
