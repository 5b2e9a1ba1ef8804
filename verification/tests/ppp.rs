use ppapi::instance::Instance;
use ppapi::message_handler::unregister_handlers;
use ppapi::ppp::{plugin_interface, str_eq, PluginInterface};

#[test]
fn plugin_interfaces_by_name() {
    assert_eq!(plugin_interface("PPP_Instance;1.1"), Some(PluginInterface::Instance));
    assert_eq!(plugin_interface("PPP_Messaging;1.0"), Some(PluginInterface::Messaging));
    assert_eq!(plugin_interface("PPP_InputEvent;0.1"), Some(PluginInterface::InputEvent));
    assert_eq!(plugin_interface("PPP_Graphics_3D;1.0"), Some(PluginInterface::Graphics3D));
    assert_eq!(plugin_interface("PPP_Instance;1.0"), None);
    assert_eq!(plugin_interface(""), None);
}

#[test]
fn text_equality() {
    assert!(str_eq("é", "é"));
    assert!(!str_eq("ab", "abc"));
    assert!(!str_eq("ab", "ac"));
    assert!(str_eq("", ""));
}

#[test]
fn handlers_are_unregistered_once() {
    let mut registered = vec![Instance::new(1), Instance::new(2)];
    let out = unregister_handlers(&mut registered);
    assert_eq!(out, vec![Instance::new(1), Instance::new(2)]);
    assert!(registered.is_empty());
    assert!(unregister_handlers(&mut registered).is_empty());
}
