use traffic_shaper::{parse_port_range, parse_protocol, Protocol};

/// Splits on the hyphen and reads each side with the standard parser.
fn by_std(s: &str) -> Result<(u16, u16), String> {
    let parts: Vec<&str> = s.split('-').collect();
    if parts.len() != 2 {
        return Err("Port range must be in format: start-end".to_string());
    }
    let start: u16 = parts[0].parse().map_err(|_| "Invalid start port number".to_string())?;
    let end: u16 = parts[1].parse().map_err(|_| "Invalid end port number".to_string())?;
    if start > end {
        return Err("Start port must be less than or equal to end port".to_string());
    }
    Ok((start, end))
}

fn protocol_by_std(s: &str) -> Result<Protocol, String> {
    match s.to_lowercase().as_str() {
        "tcp" => Ok(Protocol::Tcp),
        "udp" => Ok(Protocol::Udp),
        "both" => Ok(Protocol::Both),
        _ => Err("Protocol must be one of: tcp, udp, both".to_string()),
    }
}

#[test]
fn port_range_in_order_is_read() {
    assert_eq!(parse_port_range("80-8080"), Ok((80, 8080)));
    assert_eq!(parse_port_range("0-65535"), Ok((0, 65535)));
    assert_eq!(parse_port_range("443-443"), Ok((443, 443)));
}

#[test]
fn port_range_out_of_order_is_refused() {
    assert_eq!(
        parse_port_range("8080-80"),
        Err("Start port must be less than or equal to end port".to_string())
    );
}

#[test]
fn port_range_needs_exactly_one_hyphen() {
    let message = Err("Port range must be in format: start-end".to_string());
    assert_eq!(parse_port_range("80"), message);
    assert_eq!(parse_port_range(""), message);
    assert_eq!(parse_port_range("80-90-100"), message);
    assert_eq!(parse_port_range("--"), message);
    assert_eq!(parse_port_range("80:90"), message);
}

#[test]
fn port_range_needs_a_port_on_each_side() {
    let start = Err("Invalid start port number".to_string());
    let end = Err("Invalid end port number".to_string());
    assert_eq!(parse_port_range("-80"), start);
    assert_eq!(parse_port_range("a-80"), start);
    assert_eq!(parse_port_range(" 80-90"), start);
    assert_eq!(parse_port_range("65536-65537"), start);
    assert_eq!(parse_port_range("+-1"), start);
    assert_eq!(parse_port_range("a-b"), start);
    assert_eq!(parse_port_range("80-"), end);
    assert_eq!(parse_port_range("80-90 "), end);
    assert_eq!(parse_port_range("80-65536"), end);
    assert_eq!(parse_port_range("80-0x50"), end);
    assert_eq!(parse_port_range("1-99999999999999999999999999"), end);
}

#[test]
fn port_may_have_a_plus_sign_and_leading_zeros() {
    assert_eq!(parse_port_range("+80-+8080"), Ok((80, 8080)));
    assert_eq!(parse_port_range("0080-0000000000000000000000008080"), Ok((80, 8080)));
    assert_eq!(parse_port_range("+0-0"), Ok((0, 0)));
    assert_eq!(parse_port_range("++1-2"), Err("Invalid start port number".to_string()));
}

#[test]
fn port_range_agrees_with_the_standard_parser() {
    let sides = [
        "", "0", "1", "9", "10", "80", "8080", "65535", "65536", "65540", "70000", "99999",
        "100000", "0065535", "0065536", "+", "+1", "+65535", "+65536", "+-", "1+", "1 ", " 1",
        "1_000", "0x10", "1e3", "1.0", "\u{661}", "\u{ff11}", "4294967296", "4294967376",
        "18446744073709551616", "18446744073709551696",
    ];
    for left in sides {
        for right in sides {
            let text = format!("{}-{}", left, right);
            assert_eq!(parse_port_range(&text), by_std(&text), "{text:?}");
        }
        assert_eq!(parse_port_range(left), by_std(left), "{left:?}");
        let three = format!("{}-1-2", left);
        assert_eq!(parse_port_range(&three), by_std(&three), "{three:?}");
    }
}

#[test]
fn protocol_is_read_in_any_case() {
    assert_eq!(parse_protocol("tcp"), Ok(Protocol::Tcp));
    assert_eq!(parse_protocol("TCP"), Ok(Protocol::Tcp));
    assert_eq!(parse_protocol("Udp"), Ok(Protocol::Udp));
    assert_eq!(parse_protocol("uDP"), Ok(Protocol::Udp));
    assert_eq!(parse_protocol("both"), Ok(Protocol::Both));
    assert_eq!(parse_protocol("BoTh"), Ok(Protocol::Both));
}

#[test]
fn unknown_protocol_is_refused() {
    let message = Err("Protocol must be one of: tcp, udp, both".to_string());
    assert_eq!(parse_protocol("icmp"), message);
    assert_eq!(parse_protocol(""), message);
    assert_eq!(parse_protocol("tcp "), message);
    assert_eq!(parse_protocol("tc"), message);
    assert_eq!(parse_protocol("tcpp"), message);
    assert_eq!(parse_protocol("t\u{e7}p"), message);
}

#[test]
fn protocol_agrees_with_standard_lower_casing() {
    let words = [
        "tcp", "Tcp", "tCp", "tcP", "TCP", "udp", "UDP", "both", "BOTH", "Both", "botH", "",
        "t", "tcpu", "udpb", "bot", "4cp", "tc\u{70}", "\u{1e6a}cp", "\u{212a}", "bo\u{3a4}h",
        "b\u{f6}th", "\u{ff34}\u{ff23}\u{ff30}", "[cp", "@dp", "`cp", "{dp", "\u{130}",
    ];
    for word in words {
        assert_eq!(parse_protocol(word), protocol_by_std(word), "{word:?}");
    }
}
