use traffic_shaper::{
    Action, ApplyConfig, Command, Config, Event, Events, Manifest, Outcome, Output, PacketLoss,
    Phase, Protocol, Simulation, SimulationError, TrafficConfig, TrafficShapingError,
    PortRange,
};

const SECOND: u64 = 1_000_000_000;

fn loss(percent: f32) -> PacketLoss {
    PacketLoss::from_bits(percent.to_bits())
}

fn config(report_output: Option<Output>) -> Config {
    Config {
        packet_loss: loss(1.0),
        latency: 10,
        bandwidth: 1_000_000,
        protocol: Protocol::Tcp,
        src_ports: None,
        dst_ports: Some((80, 8080)),
        report_output,
    }
}

fn event(time: u64, latency: u32) -> Events {
    Events { time, latency, bandwidth: 1_000 * latency as u64, packet_loss: loss(latency as f32) }
}

fn manifest(times: &[u64]) -> Manifest {
    Manifest {
        config: config(None),
        events: times
            .iter()
            .enumerate()
            .map(|(index, time)| event(*time, index as u32 + 1))
            .collect(),
    }
}

fn configure(latency: u32) -> Action {
    Action::Backend(Command::ConfigureLimiter {
        id: 1,
        bandwidth: 1_000 * latency as u64,
        latency,
        packet_loss: loss(latency as f32),
    })
}

fn done() -> Event {
    Event::Reply(Outcome::Done)
}

fn failed(text: &str) -> Event {
    Event::Reply(Outcome::Failed(TrafficShapingError::CommandError(text.to_string())))
}

fn surfaced(text: &str) -> Action {
    Action::Finish(Err(SimulationError::SystemError(TrafficShapingError::CommandError(
        text.to_string(),
    ))))
}

/// Starts a session and answers its enabling by the short way, up to the
/// reading of the clock.
fn started(manifest: Manifest) -> Simulation {
    let mut simulation = Simulation::new(manifest, 0);
    assert_eq!(simulation.start(), Action::Backend(Command::Activate));
    assert_eq!(simulation.phase(), Phase::Enabling);
    assert_eq!(simulation.resume(done()), Action::Backend(Command::QueryLimiter { id: 1 }));
    assert_eq!(
        simulation.resume(Event::Reply(Outcome::Found(true))),
        Action::Backend(Command::ConfigureLimiter {
            id: 1,
            bandwidth: 1_000_000,
            latency: 10,
            packet_loss: loss(1.0),
        })
    );
    assert_eq!(simulation.resume(done()), Action::ReadClock);
    assert_eq!(simulation.phase(), Phase::Starting);
    simulation
}

fn expect_cleanup(simulation: &mut Simulation, replies: [Event; 3], finish: Action) {
    let [flushed, restored, deactivated] = replies;
    assert_eq!(simulation.phase(), Phase::Cleaning);
    assert_eq!(simulation.resume(flushed), Action::Backend(Command::RestoreBasePolicy));
    assert_eq!(simulation.resume(restored), Action::Backend(Command::Deactivate));
    assert_eq!(simulation.resume(deactivated), finish);
    assert_eq!(simulation.phase(), Phase::Finished);
}

#[test]
fn manifest_config_converts_field_by_field() {
    let converted: TrafficConfig = config(Some(Output::Stdout)).into();
    assert_eq!(
        converted,
        TrafficConfig {
            packet_loss: loss(1.0),
            latency: 10,
            max_bandwidth: 1_000_000,
            protocol: Protocol::Tcp,
            src_ports: None,
            dst_ports: Some(PortRange { start: 80, end: 8080 }),
            report_output: Output::Stdout,
        }
    );
    let silent: TrafficConfig = config(None).into();
    assert_eq!(silent.report_output, Output::Off);
    let reversed: TrafficConfig =
        Config { src_ports: Some((9, 1)), ..config(None) }.into();
    assert_eq!(reversed.src_ports, Some(PortRange { start: 9, end: 1 }));
}

#[test]
fn event_converts_to_its_change() {
    let change: ApplyConfig = event(5, 7).into();
    assert_eq!(
        change,
        ApplyConfig { packet_loss: loss(7.0), latency: 7, max_bandwidth: 7_000 }
    );
}

#[test]
fn session_replays_the_timeline_in_order() {
    let epoch = 40 * SECOND;
    let mut simulation = started(manifest(&[0, 2, 2, 5]));
    assert_eq!(simulation.resume(Event::Time(epoch)), configure(1));
    assert_eq!(simulation.phase(), Phase::Applying);
    assert_eq!(
        simulation.resume(done()),
        Action::Sleep { deadline: (epoch + 2 * SECOND) as u128 }
    );
    assert_eq!(simulation.phase(), Phase::Sleeping);
    // Woken early: nothing is applied, and the session sleeps again.
    assert_eq!(
        simulation.resume(Event::Time(epoch + SECOND)),
        Action::Sleep { deadline: (epoch + 2 * SECOND) as u128 }
    );
    assert_eq!(simulation.position(), 1);
    // Both events at two seconds are applied before the next wait.
    assert_eq!(simulation.resume(Event::Time(epoch + 2 * SECOND)), configure(2));
    assert_eq!(simulation.resume(done()), configure(3));
    assert_eq!(
        simulation.resume(done()),
        Action::Sleep { deadline: (epoch + 5 * SECOND) as u128 }
    );
    assert_eq!(simulation.resume(Event::Time(epoch + 5 * SECOND)), configure(4));
    assert_eq!(simulation.resume(done()), Action::Backend(Command::FlushLimiters));
    expect_cleanup(&mut simulation, [done(), done(), done()], Action::Finish(Ok(())));
    assert_eq!(simulation.position(), 4);
}

#[test]
fn late_wake_applies_both_events_and_completes() {
    let epoch = 5;
    let mut simulation = started(manifest(&[1, 3]));
    assert_eq!(
        simulation.resume(Event::Time(epoch)),
        Action::Sleep { deadline: (epoch + SECOND) as u128 }
    );
    assert_eq!(simulation.resume(Event::Time(epoch + 10 * SECOND)), configure(1));
    assert_eq!(simulation.resume(done()), configure(2));
    assert_eq!(simulation.resume(done()), Action::Backend(Command::FlushLimiters));
    expect_cleanup(&mut simulation, [done(), done(), done()], Action::Finish(Ok(())));
}

#[test]
fn apply_failure_ends_the_replay_and_is_surfaced_after_cleanup() {
    let mut simulation = started(manifest(&[0, 0, 0, 0, 0]));
    assert_eq!(simulation.resume(Event::Time(0)), configure(1));
    assert_eq!(simulation.resume(done()), configure(2));
    assert_eq!(simulation.resume(done()), configure(3));
    assert_eq!(simulation.position(), 2);
    assert_eq!(simulation.resume(failed("third")), Action::Backend(Command::FlushLimiters));
    // The scheduler stays at the event whose change failed.
    assert_eq!(simulation.position(), 2);
    expect_cleanup(
        &mut simulation,
        [failed("flush"), failed("restore"), failed("deactivate")],
        surfaced("third"),
    );
    // The session is over: nothing more is attempted.
    assert_eq!(simulation.resume(done()), surfaced("third"));
    assert_eq!(simulation.position(), 2);
}

#[test]
fn failure_of_the_only_event_leaves_the_scheduler_at_it() {
    let mut simulation = started(manifest(&[0]));
    assert_eq!(simulation.resume(Event::Time(0)), configure(1));
    assert_eq!(simulation.position(), 0);
    assert_eq!(simulation.resume(failed("only")), Action::Backend(Command::FlushLimiters));
    assert_eq!(simulation.position(), 0);
    expect_cleanup(&mut simulation, [done(), done(), done()], surfaced("only"));
    assert_eq!(simulation.position(), 0);
}

#[test]
fn failure_of_the_last_event_is_not_the_end_of_the_timeline() {
    let mut simulation = started(manifest(&[0, 0]));
    assert_eq!(simulation.resume(Event::Time(0)), configure(1));
    assert_eq!(simulation.resume(done()), configure(2));
    assert_eq!(simulation.position(), 1);
    assert_eq!(simulation.resume(failed("last")), Action::Backend(Command::FlushLimiters));
    expect_cleanup(&mut simulation, [done(), done(), done()], surfaced("last"));
    assert_eq!(simulation.position(), 1);
}

#[test]
fn position_counts_the_changes_that_were_applied() {
    let mut simulation = started(manifest(&[0, 0, 9]));
    assert_eq!(simulation.position(), 0);
    assert_eq!(simulation.resume(Event::Time(0)), configure(1));
    assert_eq!(simulation.position(), 0);
    assert_eq!(simulation.resume(done()), configure(2));
    assert_eq!(simulation.position(), 1);
    assert_eq!(simulation.resume(done()), Action::Sleep { deadline: 9 * SECOND as u128 });
    assert_eq!(simulation.position(), 2);
}

#[test]
fn session_stamps_the_record_with_the_time_it_is_given() {
    let mut simulation = Simulation::new(
        Manifest { config: config(Some(Output::Stdout)), events: vec![event(0, 1)] },
        0,
    );
    simulation.start();
    simulation.resume(done());
    simulation.resume(Event::Reply(Outcome::Found(true)));
    assert_eq!(simulation.resume(done()), Action::ReadClock);
    assert_eq!(simulation.resume_stamped(Event::Time(0), "unused".to_string()), configure(1));
    assert_eq!(
        simulation.resume_stamped(done(), "2024-05-06T07:08:09Z".to_string()),
        Action::Backend(Command::Report {
            sink: traffic_shaper::ReportSink::Stdout,
            record: traffic_shaper::EventReport {
                timestamp: "2024-05-06T07:08:09Z".to_string(),
                bandwidth: 1_000,
                latency: 1,
                packet_loss: loss(1.0),
            },
        })
    );
    assert_eq!(simulation.position(), 0);
    assert_eq!(
        simulation.resume_stamped(done(), "unused".to_string()),
        Action::Backend(Command::FlushLimiters)
    );
    assert_eq!(simulation.position(), 1);
}

#[test]
fn every_exit_is_cleaned_up_exactly_once() {
    // Fail each action in turn and count the commands of the cleanup.
    for failing in 0..12 {
        let mut simulation = Simulation::new(manifest(&[0, 1, 1]), 0);
        let mut action = simulation.start();
        let mut clock = 0u64;
        let mut step = 0;
        let mut seen = (0, 0, 0);
        let mut failure: Option<String> = None;
        let result = loop {
            let event = match action {
                Action::Finish(result) => break result,
                Action::ReadClock => Event::Time(clock),
                Action::Sleep { deadline } => {
                    clock = deadline as u64;
                    Event::Time(clock)
                }
                Action::Backend(command) => {
                    match command {
                        Command::FlushLimiters => seen.0 += 1,
                        Command::RestoreBasePolicy => seen.1 += 1,
                        Command::Deactivate => seen.2 += 1,
                        _ => {}
                    }
                    let cleaning = seen.0 > 0;
                    let reply = if step == failing {
                        if !cleaning {
                            failure = Some(format!("step {}", step));
                        }
                        Outcome::Failed(TrafficShapingError::CommandError(format!(
                            "step {}",
                            step
                        )))
                    } else {
                        match command {
                            Command::QueryLimiter { .. } => Outcome::Found(false),
                            Command::ReadBasePolicy => Outcome::Text("base".to_string()),
                            _ => Outcome::Done,
                        }
                    };
                    step += 1;
                    Event::Reply(reply)
                }
            };
            action = simulation.resume(event);
        };
        assert_eq!(seen, (1, 1, 1), "failing step {failing}");
        let expected = match failure {
            Some(text) => {
                Err(SimulationError::SystemError(TrafficShapingError::CommandError(text)))
            }
            None => Ok(()),
        };
        assert_eq!(result, expected, "failing step {failing}");
        assert_eq!(simulation.phase(), Phase::Finished);
    }
}

#[test]
fn enable_failure_skips_the_timeline_and_is_surfaced_after_cleanup() {
    let mut simulation = Simulation::new(manifest(&[0, 1]), 0);
    simulation.start();
    assert_eq!(simulation.resume(failed("activate")), Action::Backend(Command::FlushLimiters));
    expect_cleanup(&mut simulation, [done(), failed("restore"), done()], surfaced("activate"));
    assert_eq!(simulation.position(), 0);
}

#[test]
fn empty_timeline_goes_straight_to_cleanup() {
    let mut simulation = started(manifest(&[]));
    assert_eq!(simulation.resume(Event::Time(9)), Action::Backend(Command::FlushLimiters));
    expect_cleanup(&mut simulation, [done(), done(), done()], Action::Finish(Ok(())));
}

#[test]
fn cleanup_failure_is_not_the_session_error() {
    let mut simulation = started(manifest(&[0]));
    assert_eq!(simulation.resume(Event::Time(0)), configure(1));
    assert_eq!(simulation.resume(done()), Action::Backend(Command::FlushLimiters));
    expect_cleanup(
        &mut simulation,
        [failed("flush"), done(), failed("deactivate")],
        Action::Finish(Ok(())),
    );
}

#[test]
fn invalid_config_blocks_the_session() {
    let invalid = Manifest {
        config: Config { packet_loss: loss(150.0), ..config(None) },
        events: vec![event(0, 1)],
    };
    let mut simulation = Simulation::new(invalid, 0);
    let refused = Action::Finish(Err(SimulationError::SystemError(
        TrafficShapingError::InvalidPacketLoss(loss(150.0)),
    )));
    assert_eq!(simulation.start(), refused);
    assert_eq!(simulation.phase(), Phase::Rejected);
    assert_eq!(simulation.resume(done()), refused);

    let reversed = Manifest {
        config: Config { dst_ports: Some((8080, 80)), ..config(None) },
        events: Vec::new(),
    };
    let mut simulation = Simulation::new(reversed, 0);
    assert_eq!(
        simulation.start(),
        Action::Finish(Err(SimulationError::SystemError(
            TrafficShapingError::InvalidPortRange { start: 8080, end: 80 }
        )))
    );
}

#[test]
fn event_of_the_wrong_kind_fails_the_session() {
    let unexpected = "unexpected reply from the backend";
    let mut simulation = started(manifest(&[1]));
    assert_eq!(simulation.resume(done()), Action::Backend(Command::FlushLimiters));
    expect_cleanup(&mut simulation, [done(), done(), done()], surfaced(unexpected));

    let mut simulation = started(manifest(&[1]));
    simulation.resume(Event::Time(0));
    assert_eq!(simulation.phase(), Phase::Sleeping);
    assert_eq!(simulation.resume(done()), Action::Backend(Command::FlushLimiters));
    expect_cleanup(&mut simulation, [done(), done(), done()], surfaced(unexpected));

    let mut simulation = started(manifest(&[0]));
    assert_eq!(simulation.resume(Event::Time(0)), configure(1));
    assert_eq!(simulation.resume(Event::Time(1)), Action::Backend(Command::FlushLimiters));
    expect_cleanup(&mut simulation, [done(), done(), done()], surfaced(unexpected));
}

#[test]
fn failure_while_sleeping_is_surfaced_after_cleanup() {
    let mut simulation = started(manifest(&[1]));
    simulation.resume(Event::Time(0));
    assert_eq!(simulation.phase(), Phase::Sleeping);
    assert_eq!(simulation.resume(failed("timer")), Action::Backend(Command::FlushLimiters));
    expect_cleanup(&mut simulation, [done(), done(), done()], surfaced("timer"));

    let mut simulation = started(manifest(&[1]));
    assert_eq!(simulation.resume(failed("clock")), Action::Backend(Command::FlushLimiters));
    expect_cleanup(&mut simulation, [done(), done(), done()], surfaced("clock"));
}

#[test]
fn cancelled_session_is_cleaned_up() {
    // While it sleeps.
    let mut simulation = started(manifest(&[1, 2]));
    simulation.resume(Event::Time(0));
    assert_eq!(simulation.phase(), Phase::Sleeping);
    assert_eq!(simulation.cancel(), Action::Backend(Command::FlushLimiters));
    expect_cleanup(&mut simulation, [done(), failed("restore"), done()], Action::Finish(Ok(())));
    assert_eq!(simulation.position(), 0);

    // While it enables.
    let mut simulation = Simulation::new(manifest(&[0]), 0);
    simulation.start();
    simulation.resume(done());
    assert_eq!(simulation.cancel(), Action::Backend(Command::FlushLimiters));
    expect_cleanup(&mut simulation, [done(), done(), done()], Action::Finish(Ok(())));

    // While it applies a change.
    let mut simulation = started(manifest(&[0, 0]));
    assert_eq!(simulation.resume(Event::Time(0)), configure(1));
    assert_eq!(simulation.cancel(), Action::Backend(Command::FlushLimiters));
    expect_cleanup(&mut simulation, [done(), done(), done()], Action::Finish(Ok(())));
    assert_eq!(simulation.position(), 0);
}

#[test]
fn cancelled_cleanup_starts_over_and_keeps_the_error() {
    let mut simulation = started(manifest(&[0]));
    assert_eq!(simulation.resume(Event::Time(0)), configure(1));
    assert_eq!(simulation.resume(failed("apply")), Action::Backend(Command::FlushLimiters));
    assert_eq!(simulation.resume(done()), Action::Backend(Command::RestoreBasePolicy));
    assert_eq!(simulation.cancel(), Action::Backend(Command::FlushLimiters));
    expect_cleanup(&mut simulation, [done(), done(), done()], surfaced("apply"));
}

#[test]
fn cancel_has_nothing_to_do_when_no_session_is_under_way() {
    let mut simulation = Simulation::new(manifest(&[0]), 0);
    assert_eq!(simulation.cancel(), Action::Finish(Ok(())));
    assert_eq!(simulation.phase(), Phase::NotStarted);

    let mut simulation = started(manifest(&[]));
    simulation.resume(Event::Time(0));
    expect_cleanup(&mut simulation, [done(), done(), done()], Action::Finish(Ok(())));
    assert_eq!(simulation.cancel(), Action::Finish(Ok(())));
    assert_eq!(simulation.phase(), Phase::Finished);
}

#[test]
fn start_gives_up_a_session_that_is_under_way() {
    let mut simulation = started(manifest(&[5]));
    simulation.resume(Event::Time(0));
    assert_eq!(simulation.start(), Action::Backend(Command::FlushLimiters));
    expect_cleanup(&mut simulation, [done(), done(), done()], Action::Finish(Ok(())));
    // Once it is over, the session can be started again.
    assert_eq!(simulation.start(), Action::Backend(Command::Activate));
    assert_eq!(simulation.phase(), Phase::Enabling);
}

#[test]
fn session_that_has_not_started_has_nothing_to_resume() {
    let mut simulation = Simulation::new(manifest(&[0]), 0);
    assert_eq!(simulation.phase(), Phase::NotStarted);
    assert_eq!(simulation.resume(done()), Action::Finish(Ok(())));
    assert_eq!(simulation.phase(), Phase::NotStarted);
}

#[test]
fn session_reports_each_applied_event() {
    let mut simulation = Simulation::new(
        Manifest { config: config(Some(Output::Stdout)), events: vec![event(0, 1)] },
        0,
    );
    simulation.start();
    simulation.resume(done());
    simulation.resume(Event::Reply(Outcome::Found(true)));
    assert_eq!(simulation.resume(done()), Action::ReadClock);
    assert_eq!(simulation.resume(Event::Time(0)), configure(1));
    match simulation.resume(done()) {
        Action::Backend(Command::Report { record, .. }) => {
            assert_eq!(
                (record.bandwidth, record.latency, record.packet_loss),
                (1_000, 1, loss(1.0))
            );
        }
        other => panic!("{other:?}"),
    }
    assert_eq!(simulation.resume(done()), Action::Backend(Command::FlushLimiters));
}
