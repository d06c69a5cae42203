use graffiti::nodejs::{NapiCallbackInfo, NapiEnv, NapiModule, NapiValue, NativeFn};

fn entries(v: &NapiValue) -> &Vec<(String, NapiValue)> {
    match v {
        NapiValue::Object(e) => e,
        _ => panic!("exports is not an object"),
    }
}

#[test]
fn module_record_starts_unregistered() {
    let m = NapiModule::new("libgraffiti".to_string());
    assert_eq!(m.nm_version, 1);
    assert_eq!(m.nm_flags, 0);
    assert_eq!(m.nm_modname, "libgraffiti");
    assert!(!m.registered);
}

#[test]
fn registration_publishes_both_functions() {
    let mut m = NapiModule::new("libgraffiti".to_string());
    let env = NapiEnv { id: 1 };
    let exports = m.init_node_module(env, NapiValue::create_object());
    assert!(m.registered);
    let e = entries(&exports);
    assert_eq!(e.len(), 2);
    assert_eq!(e[0].0, "createWindow");
    assert!(matches!(e[0].1, NapiValue::Function(NativeFn::CreateWindow)));
    assert_eq!(e[1].0, "waitEvent");
    assert!(matches!(e[1].1, NapiValue::Function(NativeFn::WaitEvent)));
}

#[test]
fn second_registration_changes_nothing() {
    let mut m = NapiModule::new("libgraffiti".to_string());
    let env = NapiEnv { id: 1 };
    let exports = m.init_node_module(env, NapiValue::create_object());
    let exports = m.init_node_module(env, exports);
    assert!(m.registered);
    let e = entries(&exports);
    assert_eq!(e.len(), 2);
    assert_eq!(e[0].0, "createWindow");
    assert_eq!(e[1].0, "waitEvent");
}

#[test]
fn setting_same_property_twice_keeps_one_entry() {
    let mut obj = NapiValue::create_object();
    obj.set_named_property("f".to_string(), NapiValue::create_uint32(1));
    obj.set_named_property("f".to_string(), NapiValue::create_uint32(2));
    let e = entries(&obj);
    assert_eq!(e.len(), 1);
    assert_eq!(e[0].0, "f");
    assert_eq!(e[0].1.get_value_uint32(), Ok(2));
}

#[test]
fn properties_keep_insertion_order() {
    let mut obj = NapiValue::create_object();
    obj.set_named_property("a".to_string(), NapiValue::create_uint32(1));
    obj.set_named_property("b".to_string(), NapiValue::create_uint32(2));
    obj.set_named_property("a".to_string(), NapiValue::create_uint32(3));
    let e = entries(&obj);
    assert_eq!(e.len(), 2);
    assert_eq!(e[0].0, "a");
    assert_eq!(e[0].1.get_value_uint32(), Ok(3));
    assert_eq!(e[1].0, "b");
}

#[test]
fn callback_info_pads_missing_arguments() {
    let info = NapiCallbackInfo {
        this_arg: NapiValue::Undefined,
        args: vec![NapiValue::create_uint32(4), NapiValue::get_boolean(true)],
    };
    let (argv, actual) = info.get_cb_info(4);
    assert_eq!(actual, 2);
    assert_eq!(argv.len(), 4);
    assert_eq!(argv[0].get_value_uint32(), Ok(4));
    assert_eq!(argv[1].get_value_bool(), Ok(true));
    assert!(matches!(argv[2], NapiValue::Undefined));
    assert!(matches!(argv[3], NapiValue::Undefined));
}

#[test]
fn callback_info_truncates_to_requested_count() {
    let info = NapiCallbackInfo {
        this_arg: NapiValue::Undefined,
        args: vec![
            NapiValue::create_uint32(1),
            NapiValue::create_uint32(2),
            NapiValue::create_uint32(3),
        ],
    };
    let (argv, actual) = info.get_cb_info(1);
    assert_eq!(actual, 3);
    assert_eq!(argv.len(), 1);
    assert_eq!(argv[0].get_value_uint32(), Ok(1));
}
