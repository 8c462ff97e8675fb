use route_bridge::hello::{hello_lines, lan_url};
use route_bridge::hello_message;

#[test]
fn lan_url_with_a_known_address() {
    assert_eq!(lan_url(Some("192.168.1.20")), "http://192.168.1.20:8054");
    assert_eq!(lan_url(Some("fe80::1")), "http://fe80::1:8054");
    assert_eq!(lan_url(Some("")), "http://:8054");
}

#[test]
fn lan_url_without_an_address() {
    assert_eq!(lan_url(None), "http://THIS_PC_IP:8054");
}

#[test]
fn hello_lines_are_the_five_lines() {
    let lines = hello_lines("HEAD", "here", "there");
    assert_eq!(
        lines,
        vec![
            "HEAD".to_string(),
            "In your web browser, go to:".to_string(),
            "On this device: here".to_string(),
            "On any other device within your local network: there".to_string(),
            "Press CTRL+C to shut down the program".to_string(),
        ]
    );
}

#[test]
fn hello_message_without_colours() {
    colored::control::set_override(false);
    let lines = hello_message(Some("10.1.2.3"));
    assert_eq!(
        lines,
        vec![
            "SERVER IS STARTING".to_string(),
            "In your web browser, go to:".to_string(),
            "On this device: http://localhost:8054".to_string(),
            "On any other device within your local network: http://10.1.2.3:8054".to_string(),
            "Press CTRL+C to shut down the program".to_string(),
        ]
    );
}

#[test]
fn hello_message_with_colours() {
    colored::control::set_override(true);
    let lines = hello_message(None);
    assert_eq!(
        lines,
        vec![
            "\u{1b}[1;32mSERVER IS STARTING\u{1b}[0m".to_string(),
            "In your web browser, go to:".to_string(),
            "On this device: \u{1b}[1mhttp://localhost:8054\u{1b}[0m".to_string(),
            "On any other device within your local network: \u{1b}[1mhttp://THIS_PC_IP:8054\u{1b}[0m"
                .to_string(),
            "Press CTRL+C to shut down the program".to_string(),
        ]
    );
}

#[test]
fn hello_message_always_has_the_plain_lines() {
    let lines = hello_message(Some("172.16.0.9"));
    assert_eq!(lines.len(), 5);
    assert!(lines[0].contains("SERVER IS STARTING"));
    assert_eq!(lines[1], "In your web browser, go to:");
    assert!(lines[2].starts_with("On this device: "));
    assert!(lines[2].contains("http://localhost:8054"));
    assert!(lines[3].starts_with("On any other device within your local network: "));
    assert!(lines[3].contains("http://172.16.0.9:8054"));
    assert_eq!(lines[4], "Press CTRL+C to shut down the program");
}
