use marain_tui::socket_client::{Message, SocketConf};

fn args(words: &[&str]) -> Vec<String> {
    words.iter().map(|word| word.to_string()).collect()
}

#[test]
fn configuration_needs_a_host() {
    assert_eq!(SocketConf::from_args(&args(&[])), None);
    assert_eq!(SocketConf::from_args(&args(&["client"])), None);
}

#[test]
fn configuration_takes_the_standard_port() {
    let conf = SocketConf::from_args(&args(&["client", "localhost"]));
    assert_eq!(conf, Some(SocketConf::new("localhost".to_string(), "1337".to_string())));
}

#[test]
fn configuration_takes_host_and_port() {
    let conf = SocketConf::from_args(&args(&["client", "example.net", "99", "more"]));
    assert_eq!(conf, Some(SocketConf::new("example.net".to_string(), "99".to_string())));
}

#[test]
fn address_of_a_bare_host() {
    let conf = SocketConf::new("localhost".to_string(), "1337".to_string());
    assert_eq!(conf.address(), Some("ws://localhost:1337".to_string()));
    assert_eq!(conf.clone(), conf);
}

#[test]
fn address_refuses_a_slash_in_the_host() {
    for host in ["ws://localhost", "local/host", "/", "localhost/"] {
        let conf = SocketConf::new(host.to_string(), "1337".to_string());
        assert_eq!(conf.address(), None);
        assert_eq!(conf.url(), None);
    }
}

#[test]
fn url_is_in_normal_form() {
    let conf = SocketConf::new("localhost".to_string(), "1337".to_string());
    assert_eq!(conf.url(), Some("ws://localhost:1337/".to_string()));
    let conf = SocketConf::new("EXAMPLE.net".to_string(), "80".to_string());
    assert_eq!(conf.url(), Some("ws://example.net/".to_string()));
}

#[test]
fn url_refuses_what_is_no_url() {
    let conf = SocketConf::new("localhost".to_string(), "port".to_string());
    assert_eq!(conf.address(), Some("ws://localhost:port".to_string()));
    assert_eq!(conf.url(), None);
    let conf = SocketConf::new(String::new(), "1337".to_string());
    assert_eq!(conf.url(), None);
}

#[test]
fn frames_of_bytes_and_the_closing_frame_are_passed_on() {
    assert_eq!(Message::Binary(vec![1, 2]).forward(), Some(Message::Binary(vec![1, 2])));
    assert_eq!(Message::Close.forward(), Some(Message::Close));
    assert_eq!(Message::Text("hi".to_string()).forward(), None);
    assert_eq!(Message::Other.forward(), None);
}

#[test]
fn bytes_of_a_frame() {
    assert_eq!(Message::Binary(vec![1, 2]).into_binary(), Some(vec![1, 2]));
    assert_eq!(Message::Binary(Vec::new()).into_binary(), Some(Vec::new()));
    assert_eq!(Message::Close.into_binary(), None);
    assert_eq!(Message::Text("hi".to_string()).into_binary(), None);
    assert_eq!(Message::Other.into_binary(), None);
}
