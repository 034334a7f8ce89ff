use traffic_shaper::{
    Action, ApplyConfig, Command, Config, Event, EventReport, Events, Manifest, MemoryBackend,
    Outcome, Output, PacketLoss, Phase, Protocol, Simulation, SimulationError, TrafficConfig,
    TrafficShaper, TrafficShapingError,
};

const SECOND: u64 = 1_000_000_000;

fn loss(percent: f32) -> PacketLoss {
    PacketLoss::from_bits(percent.to_bits())
}

fn event(time: u64, latency: u32) -> Events {
    Events { time, latency, bandwidth: 1_000 * latency as u64, packet_loss: loss(latency as f32) }
}

fn manifest(report_output: Option<Output>, times: &[u64]) -> Manifest {
    Manifest {
        config: Config {
            packet_loss: loss(1.0),
            latency: 10,
            bandwidth: 1_000_000,
            protocol: Protocol::Udp,
            src_ports: Some((1000, 2000)),
            dst_ports: None,
            report_output,
        },
        events: times
            .iter()
            .enumerate()
            .map(|(index, time)| event(*time, index as u32 + 1))
            .collect(),
    }
}

fn changes(records: &[EventReport]) -> Vec<ApplyConfig> {
    records
        .iter()
        .map(|record| ApplyConfig {
            packet_loss: record.packet_loss,
            latency: record.latency,
            max_bandwidth: record.bandwidth,
        })
        .collect()
}

fn expected(count: u32) -> Vec<ApplyConfig> {
    (1..=count)
        .map(|latency| ApplyConfig {
            packet_loss: loss(latency as f32),
            latency,
            max_bandwidth: 1_000 * latency as u64,
        })
        .collect()
}

fn file() -> Option<Output> {
    Some(Output::File { path: "report.jsonl".to_string() })
}

#[test]
fn rehearsal_writes_one_record_for_each_event() {
    let mut backend = MemoryBackend::new("pass all\n");
    backend.perform(Command::Report {
        sink: traffic_shaper::ReportSink::File,
        record: EventReport::new(9, 9, loss(9.0)),
    });
    let mut simulation = Simulation::new(manifest(file(), &[0, 2, 2, 5]), 0);
    assert_eq!(backend.rehearse(&mut simulation), Ok(()));
    assert_eq!(simulation.phase(), Phase::Finished);
    assert_eq!(simulation.position(), 4);
    // The file was truncated when it was opened, and holds the four records.
    assert_eq!(changes(backend.file()), expected(4));
    assert!(backend.console().is_empty());
    assert_eq!(backend.references(), 0);
    assert_eq!(backend.limiter(1), None);
    assert!(backend.policies().is_empty());
    assert_eq!(backend.clock(), 5 * SECOND);
}

#[test]
fn rehearsal_reports_to_the_console() {
    let mut backend = MemoryBackend::new("");
    let mut simulation = Simulation::new(manifest(Some(Output::Stdout), &[1, 3]), 0);
    backend.set_clock(10 * SECOND);
    assert_eq!(backend.rehearse(&mut simulation), Ok(()));
    assert_eq!(changes(backend.console()), expected(2));
    assert!(backend.file().is_empty());
    assert_eq!(backend.clock(), 13 * SECOND);
}

#[test]
fn rehearsal_without_a_report_records_nothing() {
    for output in [None, Some(Output::Off)] {
        let mut backend = MemoryBackend::new("");
        let mut simulation = Simulation::new(manifest(output, &[0, 0, 1]), 0);
        assert_eq!(backend.rehearse(&mut simulation), Ok(()));
        assert_eq!(simulation.position(), 3);
        assert!(backend.console().is_empty());
        assert!(backend.file().is_empty());
    }
}

#[test]
fn rehearsal_of_an_empty_timeline_enables_and_cleans_up() {
    let mut backend = MemoryBackend::new("");
    let mut simulation = Simulation::new(manifest(file(), &[]), 0);
    assert_eq!(backend.rehearse(&mut simulation), Ok(()));
    assert_eq!(backend.references(), 0);
    assert!(backend.file().is_empty());
    assert_eq!(backend.clock(), 0);
}

#[test]
fn rehearsal_leaves_the_references_of_others() {
    let mut backend = MemoryBackend::new("");
    let other: TrafficConfig = manifest(None, &[]).config.into();
    let mut other = TrafficShaper::new(other);
    assert_eq!(backend.enable(&mut other), Ok(()));
    let mut simulation = Simulation::new(manifest(None, &[0, 1]), 0);
    assert_eq!(backend.rehearse(&mut simulation), Ok(()));
    assert_eq!(backend.references(), 1);
}

#[test]
fn rehearsal_of_an_unordered_timeline_follows_the_list() {
    let mut backend = MemoryBackend::new("");
    let mut simulation = Simulation::new(manifest(file(), &[5, 2, 7]), 0);
    assert_eq!(backend.rehearse(&mut simulation), Ok(()));
    assert_eq!(changes(backend.file()), expected(3));
    assert_eq!(backend.clock(), 7 * SECOND);
}

#[test]
fn rehearsal_refuses_an_invalid_config_and_touches_nothing() {
    let mut invalid = manifest(file(), &[0]);
    invalid.config.packet_loss = loss(150.0);
    let mut backend = MemoryBackend::new("");
    let mut simulation = Simulation::new(invalid, 0);
    assert_eq!(
        backend.rehearse(&mut simulation),
        Err(SimulationError::SystemError(TrafficShapingError::InvalidPacketLoss(loss(150.0))))
    );
    assert_eq!(simulation.phase(), Phase::Rejected);
    assert_eq!(backend.references(), 0);
    assert_eq!(backend.limiter(1), None);
}

#[test]
fn rehearsal_fails_on_a_deadline_beyond_the_clock() {
    let mut backend = MemoryBackend::new("");
    let mut simulation = Simulation::new(manifest(file(), &[0, u64::MAX, 1]), 0);
    assert_eq!(
        backend.rehearse(&mut simulation),
        Err(SimulationError::SystemError(TrafficShapingError::SystemError(
            "deadline beyond the clock".to_string()
        )))
    );
    assert_eq!(simulation.phase(), Phase::Finished);
    assert_eq!(simulation.position(), 1);
    assert_eq!(changes(backend.file()), expected(1));
    // The session was cleaned up all the same.
    assert_eq!(backend.references(), 0);
    assert_eq!(backend.limiter(1), None);
}

#[test]
fn rehearsal_gives_back_only_the_reference_it_took() {
    let mut backend = MemoryBackend::new("");
    // Three other holders keep the packet filter active.
    for _ in 0..3 {
        backend.perform(Command::Activate);
    }
    let mut simulation = Simulation::new(manifest(None, &[0]), 0);
    assert_eq!(backend.rehearse(&mut simulation), Ok(()));
    assert_eq!(backend.references(), 3);
}

#[test]
fn sleep_moves_the_clock_forward_only() {
    let mut backend = MemoryBackend::new("");
    assert_eq!(backend.sleep(5), Some(5));
    assert_eq!(backend.sleep(3), Some(5));
    assert_eq!(backend.clock(), 5);
    assert_eq!(backend.sleep(u64::MAX as u128), Some(u64::MAX));
    assert_eq!(backend.sleep(u64::MAX as u128 + 1), None);
    assert_eq!(backend.clock(), u64::MAX);
}

#[test]
fn answer_serves_each_kind_of_action() {
    let mut backend = MemoryBackend::new("base");
    backend.set_clock(7);
    assert_eq!(backend.answer(Action::ReadClock), Event::Time(7));
    assert_eq!(backend.answer(Action::Sleep { deadline: 9 }), Event::Time(9));
    assert_eq!(
        backend.answer(Action::Backend(Command::ReadBasePolicy)),
        Event::Reply(Outcome::Text("base".to_string()))
    );
    assert_eq!(
        backend.answer(Action::Sleep { deadline: u128::MAX }),
        Event::Reply(Outcome::Failed(TrafficShapingError::SystemError(
            "deadline beyond the clock".to_string()
        )))
    );
    assert_eq!(backend.answer(Action::Finish(Ok(()))), Event::Time(9));
}

#[test]
fn rehearsal_is_the_session_driven_by_hand() {
    let times = [0, 1, 1, 4];
    let mut rehearsed = MemoryBackend::new("base");
    let mut simulation = Simulation::new(manifest(file(), &times), 0);
    let result = rehearsed.rehearse(&mut simulation);

    let mut backend = MemoryBackend::new("base");
    let mut by_hand = Simulation::new(manifest(file(), &times), 0);
    let mut action = by_hand.start();
    let finished = loop {
        match action {
            Action::Finish(result) => break result,
            other => {
                let event = backend.answer(other);
                action = by_hand.resume(event);
            }
        }
    };
    assert_eq!(result, finished);
    assert_eq!(changes(rehearsed.file()), changes(backend.file()));
    assert_eq!(rehearsed.clock(), backend.clock());
    assert_eq!(rehearsed.references(), backend.references());
    assert_eq!(simulation.position(), by_hand.position());
}
