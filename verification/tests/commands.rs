use traffic_shaper::text::{chars_of, find};
use traffic_shaper::{
    DnctlCommands, Invocation, Outcome, PfctlCommands, Reading, TrafficShapingError,
};

fn line(invocation: &Invocation) -> String {
    let mut words = vec![invocation.program.clone()];
    words.extend(invocation.args.iter().cloned());
    words.join(" ")
}

fn listing(pipe_num: u32) -> Invocation {
    DnctlCommands::pipe_exists(pipe_num)
}

#[test]
fn pfctl_command_lines() {
    let load = PfctlCommands::load_rules("/tmp/rules.conf", None);
    assert_eq!(load.program, "pfctl");
    assert_eq!(load.args, vec!["-f", "/tmp/rules.conf"]);
    assert_eq!(load.reading, Reading::Status);

    let anchored = PfctlCommands::load_rules("/tmp/rules.conf", Some("traffic_shaper"));
    assert_eq!(anchored.args, vec!["-a", "traffic_shaper", "-f", "/tmp/rules.conf"]);
    assert_eq!(anchored.reading, Reading::Status);

    let restore = PfctlCommands::restore_original_rules();
    assert_eq!(line(&restore), "pfctl -f /etc/pf.conf");
    assert_eq!(restore.reading, Reading::Status);

    let enable = PfctlCommands::enable();
    assert_eq!(line(&enable), "pfctl -e");
    assert_eq!(enable.reading, Reading::Activation);

    let disable = PfctlCommands::disable();
    assert_eq!(line(&disable), "pfctl -d");
    assert_eq!(disable.reading, Reading::Status);
}

#[test]
fn dnctl_command_lines() {
    let show = DnctlCommands::pipe_exists(7);
    assert_eq!(line(&show), "dnctl show");
    assert_eq!(show.reading, Reading::Listing { pipe_num: 7 });

    let flush = DnctlCommands::flush_pipes();
    assert_eq!(line(&flush), "dnctl -q flush");
    assert_eq!(flush.reading, Reading::Status);

    let full = DnctlCommands::configure_pipe(1, Some(1_000_000), Some(50), Some("0.1"));
    assert_eq!(
        full.args,
        vec!["pipe", "1", "config", "bw", "1000000bit/s", "delay", "50ms", "plr", "0.1"]
    );
    assert_eq!(full.program, "dnctl");
    assert_eq!(full.reading, Reading::Status);
}

#[test]
fn configure_pipe_leaves_out_what_is_absent() {
    assert_eq!(
        line(&DnctlCommands::configure_pipe(12, None, None, None)),
        "dnctl pipe 12 config"
    );
    assert_eq!(
        line(&DnctlCommands::configure_pipe(0, Some(0), None, None)),
        "dnctl pipe 0 config bw 0bit/s"
    );
    assert_eq!(
        line(&DnctlCommands::configure_pipe(4294967295, None, Some(4294967295), None)),
        "dnctl pipe 4294967295 config delay 4294967295ms"
    );
    assert_eq!(
        line(&DnctlCommands::configure_pipe(3, None, None, Some("1"))),
        "dnctl pipe 3 config plr 1"
    );
    assert_eq!(
        line(&DnctlCommands::configure_pipe(3, Some(u64::MAX), None, Some("0.25"))),
        "dnctl pipe 3 config bw 18446744073709551615bit/s plr 0.25"
    );
}

#[test]
fn status_is_read_from_the_exit_status() {
    let flush = DnctlCommands::flush_pipes();
    assert_eq!(flush.interpret(true, "out", "err"), Outcome::Done);
    assert_eq!(
        flush.interpret(false, "out", "dnctl: not permitted\n"),
        Outcome::Failed(TrafficShapingError::CommandError("dnctl: not permitted\n".to_string()))
    );
}

#[test]
fn enabling_an_enabled_packet_filter_is_no_failure() {
    let enable = PfctlCommands::enable();
    assert_eq!(enable.interpret(true, "", ""), Outcome::Done);
    assert_eq!(enable.interpret(true, "", "pf enabled\n"), Outcome::Done);
    assert_eq!(enable.interpret(false, "", "pfctl: pf already enabled\n"), Outcome::Done);
    assert_eq!(
        enable.interpret(
            false,
            "",
            "No ALTQ support in kernel\nALTQ related functions disabled\n\
             pfctl: pf already enabled\n"
        ),
        Outcome::Done
    );
}

#[test]
fn enabling_fails_on_any_other_failure() {
    let enable = PfctlCommands::enable();
    for stderr in ["pfctl: /dev/pf: Permission denied\n", "", "pf enabled", "already enabled"] {
        assert_eq!(
            enable.interpret(false, "pf already enabled", stderr),
            Outcome::Failed(TrafficShapingError::CommandError(stderr.to_string())),
            "{stderr:?}"
        );
    }
}

#[test]
fn disabling_a_disabled_packet_filter_is_a_failure() {
    let disable = PfctlCommands::disable();
    assert_eq!(
        disable.interpret(false, "", "pfctl: pf already enabled\n"),
        Outcome::Failed(TrafficShapingError::CommandError(
            "pfctl: pf already enabled\n".to_string()
        ))
    );
}

#[test]
fn listing_is_searched_for_the_pipe() {
    let stdout = "pipe 1 config bw 1000000bit/s\npipe 12 config\n";
    assert_eq!(listing(1).interpret(true, stdout, ""), Outcome::Found(true));
    assert_eq!(listing(12).interpret(true, stdout, ""), Outcome::Found(true));
    assert_eq!(listing(2).interpret(true, stdout, ""), Outcome::Found(false));
    assert_eq!(listing(120).interpret(true, stdout, ""), Outcome::Found(false));
    assert_eq!(listing(1).interpret(true, "", ""), Outcome::Found(false));
    // The entry ends with a space: a longer number does not count, nor does
    // the number at the end of the output.
    assert_eq!(listing(1).interpret(true, "pipe 10 ", ""), Outcome::Found(false));
    assert_eq!(listing(1).interpret(true, "pipe 1", ""), Outcome::Found(false));
    assert_eq!(listing(1).interpret(true, "xpipe 1 ", ""), Outcome::Found(true));
    assert_eq!(listing(1).interpret(true, "p\u{e9}pipe 1 \u{2603}", ""), Outcome::Found(true));
}

#[test]
fn failed_listing_is_a_command_error() {
    assert_eq!(
        listing(1).interpret(false, "pipe 1 ", "dnctl: failed"),
        Outcome::Failed(TrafficShapingError::CommandError("dnctl: failed".to_string()))
    );
}

#[test]
fn listing_agrees_with_str_contains() {
    let outputs = [
        "",
        "pipe",
        "pipe ",
        "pipe 1",
        "pipe 1 ",
        " pipe 1 ",
        "pipe  1 ",
        "pipe 11 pipe 1 ",
        "00001:   1.000 Mbit/s   50 ms burst 0\n",
        "pipe 4294967295 ",
        "pipe 0 pipe 01 ",
    ];
    for output in outputs {
        for pipe_num in [0u32, 1, 11, 4294967295] {
            assert_eq!(
                listing(pipe_num).interpret(true, output, ""),
                Outcome::Found(output.contains(&format!("pipe {} ", pipe_num))),
                "{output:?} {pipe_num}"
            );
        }
    }
}

#[test]
fn find_agrees_with_str_contains() {
    let texts = ["", "a", "ab", "aab", "abab", "aaab", "ba", "\u{e9}a\u{e9}", "abc abd"];
    for hay in texts {
        for needle in texts {
            assert_eq!(
                find(&chars_of(hay), &chars_of(needle)),
                hay.contains(needle),
                "{hay:?} {needle:?}"
            );
        }
    }
}

#[test]
fn chars_of_keeps_every_character() {
    for text in ["", "abc", "pipe 1 ", "\u{e9}\u{2603}\u{1F600}x"] {
        assert_eq!(chars_of(text), text.chars().collect::<Vec<char>>());
    }
}
