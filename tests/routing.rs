use losant_device::{
    encode_state, State, Builder, Command, CommandHandler, DeviceDefaults, Dispatch, EventHandler,
    EventRouter, InboundEvent, Route,
};

#[derive(Debug, Clone, PartialEq, Eq)]
struct Rgb {
    r: u64,
    g: u64,
    b: u64,
}

#[derive(Default)]
struct Events {
    seen: Vec<String>,
}

impl EventHandler for Events {
    fn on_event(&mut self, event: &InboundEvent) {
        self.seen.push(describe(event));
    }
}

#[derive(Default)]
struct Leds {
    commands: Vec<Command<Rgb>>,
}

impl CommandHandler for Leds {
    type Command = Command<Rgb>;

    fn decode(&self, body: &[u8]) -> Option<Command<Rgb>> {
        let v: serde_json::Value = serde_json::from_slice(body).ok()?;
        let name = v.get("name")?.as_str()?.to_string();
        let p = v.get("payload")?;
        let channel = |k: &str| p.get(k).and_then(|c| c.as_u64());
        Some(Command {
            name,
            payload: Rgb { r: channel("r")?, g: channel("g")?, b: channel("b")? },
        })
    }

    fn on_command(&mut self, command: &Command<Rgb>) {
        self.commands.push(command.clone());
    }
}

fn describe(event: &InboundEvent) -> String {
    match event {
        InboundEvent::Received { topic, data, complete, .. } => format!(
            "received {:?} {} {}",
            topic,
            String::from_utf8_lossy(data),
            complete
        ),
        InboundEvent::Connected(s) => format!("connected {}", s),
        InboundEvent::Disconnected => "disconnected".to_string(),
        InboundEvent::Error(c) => format!("error {}", c),
        _ => "other".to_string(),
    }
}

fn received(topic: &str, body: &str, complete: bool) -> InboundEvent {
    InboundEvent::Received {
        id: 1,
        topic: Some(topic.to_string()),
        data: body.as_bytes().to_vec(),
        complete,
    }
}

fn router() -> EventRouter<Events, Leds> {
    EventRouter::new("losant/dev-1/command".to_string(), Events::default(), Leds::default())
}

const SET_LED: &str = r#"{"name":"setLed","payload":{"r":0,"g":20,"b":0}}"#;

#[test]
fn decoded_command_reaches_command_handler_only() {
    let mut r = router();
    let d = r.dispatch(&received("losant/dev-1/command", SET_LED, true));
    assert_eq!(d, Dispatch::Delivered);
    assert_eq!(r.command_handler().commands.len(), 1);
    assert_eq!(r.command_handler().commands[0].name, "setLed");
    assert!(r.handler().seen.is_empty());
}

#[test]
fn malformed_command_is_dropped() {
    let mut r = router();
    let d = r.dispatch(&received("losant/dev-1/command", "{not json", true));
    assert_eq!(d, Dispatch::Dropped);
    assert!(r.command_handler().commands.is_empty());
    assert!(r.handler().seen.is_empty());
}

#[test]
fn other_topic_goes_to_generic_handler_unchanged() {
    let mut r = router();
    let event = received("losant/dev-1/state", SET_LED, true);
    let d = r.dispatch(&event);
    assert_eq!(d, Dispatch::Forwarded);
    assert_eq!(r.handler().seen, vec![describe(&event)]);
    assert!(r.command_handler().commands.is_empty());
}

#[test]
fn partial_command_goes_to_generic_handler() {
    let mut r = router();
    let event = received("losant/dev-1/command", SET_LED, false);
    assert_eq!(r.dispatch(&event), Dispatch::Forwarded);
    assert_eq!(r.handler().seen, vec![describe(&event)]);
    assert!(r.command_handler().commands.is_empty());
}

#[test]
fn non_message_events_go_to_generic_handler() {
    let mut r = router();
    let events = [
        InboundEvent::Connected(false),
        InboundEvent::Disconnected,
        InboundEvent::Error(-1),
        InboundEvent::Received { id: 2, topic: None, data: vec![1, 2], complete: false },
    ];
    for e in events.iter() {
        assert_eq!(r.dispatch(e), Dispatch::Forwarded);
    }
    assert_eq!(r.handler().seen.len(), 4);
    assert_eq!(r.handler().seen[1], "disconnected");
}

#[test]
fn classify_exposes_command_body() {
    let r = router();
    let event = received("losant/dev-1/command", SET_LED, true);
    match r.classify(&event) {
        Route::Command(body) => assert_eq!(body, SET_LED.as_bytes()),
        Route::Generic => panic!("expected a command"),
    }
    assert!(matches!(r.classify(&InboundEvent::Disconnected), Route::Generic));
}

#[test]
fn end_to_end_set_led() {
    let defaults = DeviceDefaults {
        key: String::new(),
        secret: String::new(),
        device_id: String::new(),
    };
    let setup = match Builder::new()
        .id("dev-1")
        .handler(Events::default())
        .command_handler(Leds::default())
        .prepare(&defaults)
    {
        Ok(s) => s,
        Err(e) => panic!("unexpected error {:?}", e),
    };
    assert_eq!(setup.topics.state, "losant/dev-1/state");
    assert_eq!(setup.topics.command, "losant/dev-1/command");
    let mut router = setup.router;
    let d = router.dispatch(&received("losant/dev-1/command", SET_LED, true));
    assert_eq!(d, Dispatch::Delivered);
    let got = &router.command_handler().commands;
    assert_eq!(got.len(), 1);
    assert_eq!(got[0].name, "setLed");
    assert_eq!(got[0].payload, Rgb { r: 0, g: 20, b: 0 });
    assert!(router.handler().seen.is_empty());
}

#[test]
fn bare_state_has_only_data_key() {
    let text = encode_state(r#"{"temp":21}"#, None, None, None);
    assert_eq!(text, r#"{"data":{"temp":21}}"#);
    let v: serde_json::Value = serde_json::from_str(&text).unwrap();
    let obj = v.as_object().unwrap();
    assert_eq!(obj.len(), 1);
    assert!(obj.contains_key("data"));
}

#[test]
fn full_state_uses_camel_case_keys() {
    let text = encode_state("1", Some(r#"{"secs":5,"nanos":0}"#), Some("\"v2\""), Some("null"));
    assert_eq!(
        text,
        r#"{"data":1,"time":{"secs":5,"nanos":0},"flowVersion":"v2","meta":null}"#
    );
    let v: serde_json::Value = serde_json::from_str(&text).unwrap();
    assert_eq!(v.as_object().unwrap().len(), 4);
}

#[test]
fn state_omits_only_absent_fields() {
    let text = encode_state("[1,2]", None, Some("\"f\""), None);
    assert_eq!(text, r#"{"data":[1,2],"flowVersion":"f"}"#);
}

#[test]
fn deliver_hands_decoded_command_over() {
    let mut r = router();
    let cmd = Command { name: "off".to_string(), payload: Rgb { r: 0, g: 0, b: 0 } };
    assert_eq!(r.deliver(Some(cmd.clone())), Dispatch::Delivered);
    assert_eq!(r.command_handler().commands, vec![cmd]);
    assert!(r.handler().seen.is_empty());
}

#[test]
fn deliver_drops_failed_decode() {
    let mut r = router();
    assert_eq!(r.deliver(None), Dispatch::Dropped);
    assert!(r.command_handler().commands.is_empty());
    assert!(r.handler().seen.is_empty());
}

#[test]
fn state_defaults_to_duration_time() {
    let s: State<u32> = State {
        data: 3,
        time: Some(std::time::Duration::from_secs(5)),
        flow_version: Some("v1"),
        meta: None,
    };
    assert_eq!(s.clone(), s);
    assert_eq!(State::<u32>::default().time, None);
}
