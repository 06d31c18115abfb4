use simple_gain::store::ParameterStore;
use simple_gain::surface::HostEvent;
use simple_gain::surface::SurfaceCommand;
use simple_gain::surface::classify;
use simple_gain::surface::extract_tokens;
use simple_gain::surface::handle_command;

#[test]
fn tokens_split_on_whitespace() {
    assert_eq!(extract_tokens("setGain 0.25"), ("setGain".to_string(), "0.25".to_string()));
    assert_eq!(extract_tokens("  setGain \t 0.5  "), ("setGain".to_string(), "0.5".to_string()));
    assert_eq!(extract_tokens("getGain"), ("getGain".to_string(), "".to_string()));
    assert_eq!(extract_tokens(""), ("".to_string(), "".to_string()));
    assert_eq!(extract_tokens("a b c"), ("a".to_string(), "b".to_string()));
}

#[test]
fn commands_are_recognized() {
    assert_eq!(classify("getGain"), SurfaceCommand::GetGain);
    assert_eq!(classify("setGain"), SurfaceCommand::SetGain);
    assert_eq!(classify("mouseOverGain"), SurfaceCommand::MouseOverGain);
    assert_eq!(classify("releaseGain"), SurfaceCommand::ReleaseGain);
    assert_eq!(classify("getgain"), SurfaceCommand::Unknown);
    assert_eq!(classify(""), SurfaceCommand::Unknown);
}

#[test]
fn get_gain_reports_three_decimals() {
    let mut store = ParameterStore::new();
    assert!(store.set_from_text(0, "0.75"));
    let (response, event) = handle_command(&mut store, "getGain");
    assert_eq!(response, "0.750");
    assert_eq!(event, None);
    assert_eq!(f32::from_bits(store.get_parameter(0)), 0.75f32);
}

#[test]
fn set_gain_stores_and_automates_once() {
    let mut store = ParameterStore::new();
    let (response, event) = handle_command(&mut store, "setGain 0.25");
    assert_eq!(response, "");
    assert_eq!(event, Some(HostEvent::Automated { index: 0, bits: 0.25f32.to_bits() }));
    assert_eq!(f32::from_bits(store.get_parameter(0)), 0.25f32);
}

#[test]
fn malformed_set_gain_is_a_contained_no_op() {
    let mut store = ParameterStore::new();
    assert!(store.set_from_text(0, "0.75"));
    let (response, event) = handle_command(&mut store, "setGain abc");
    assert_eq!(response, "");
    assert_eq!(event, None);
    assert_eq!(f32::from_bits(store.get_parameter(0)), 0.75f32);
}

#[test]
fn set_gain_without_argument_is_a_no_op() {
    let mut store = ParameterStore::new();
    assert!(store.set_from_text(0, "0.75"));
    let (response, event) = handle_command(&mut store, "setGain");
    assert_eq!(response, "");
    assert_eq!(event, None);
    assert_eq!(f32::from_bits(store.get_parameter(0)), 0.75f32);
}

#[test]
fn gesture_brackets_in_order() {
    let mut store = ParameterStore::new();
    assert!(store.set_from_text(0, "0.5"));

    let (response, event) = handle_command(&mut store, "mouseOverGain");
    assert_eq!(response, "");
    assert_eq!(event, Some(HostEvent::BeginEdit { index: 0 }));

    let (response, event) = handle_command(&mut store, "releaseGain");
    assert_eq!(response, "");
    assert_eq!(event, Some(HostEvent::EndEdit { index: 0 }));

    assert_eq!(f32::from_bits(store.get_parameter(0)), 0.5f32);
}

#[test]
fn unknown_commands_are_ignored() {
    let mut store = ParameterStore::new();
    assert!(store.set_from_text(0, "0.5"));
    for message in ["", "bogus", "GETGAIN", "setGainx 0.1", "gain set 0.1"] {
        let (response, event) = handle_command(&mut store, message);
        assert_eq!(response, "");
        assert_eq!(event, None);
        assert_eq!(f32::from_bits(store.get_parameter(0)), 0.5f32);
    }
}

#[test]
fn tokens_beyond_the_argument_are_ignored() {
    let mut store = ParameterStore::new();
    let (response, event) = handle_command(&mut store, "setGain 0.25 extra junk");
    assert_eq!(response, "");
    assert_eq!(event, Some(HostEvent::Automated { index: 0, bits: 0.25f32.to_bits() }));
    assert_eq!(f32::from_bits(store.get_parameter(0)), 0.25f32);
}

#[test]
fn get_gain_ignores_an_argument() {
    let mut store = ParameterStore::new();
    assert!(store.set_from_text(0, "1.0"));
    let (response, event) = handle_command(&mut store, "getGain 0.25");
    assert_eq!(response, "1.000");
    assert_eq!(event, None);
    assert_eq!(f32::from_bits(store.get_parameter(0)), 1.0f32);
}

#[test]
fn set_then_get_round_trip() {
    let mut store = ParameterStore::new();
    let (_, _) = handle_command(&mut store, "setGain 0.125");
    let (response, event) = handle_command(&mut store, "getGain");
    assert_eq!(response, "0.125");
    assert_eq!(event, None);
}
