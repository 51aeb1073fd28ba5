use rtt_rust::entry::{
    check_signature, plan_entry, EntryArgs, EntryError, FnShape, Role, SignatureFault,
    ENTRY_STATUS,
};

fn good_shape() -> FnShape {
    FnShape {
        is_const: false,
        is_unsafe: false,
        is_async: false,
        is_public: false,
        has_abi: false,
        n_params: 1,
        n_generics: 0,
        has_where_clause: false,
        is_variadic: false,
        returns_value: false,
    }
}

fn args(name: Option<&str>, component: bool, app: bool, cmd: bool, desc: Option<&str>) -> EntryArgs {
    EntryArgs {
        name: name.map(|n| n.as_bytes().to_vec()),
        component: if component { Some(true) } else { None },
        app: if app { Some(true) } else { None },
        cmd: if cmd { Some(true) } else { None },
        desc: desc.map(|d| d.as_bytes().to_vec()),
    }
}

#[test]
fn valid_signature_is_accepted() {
    assert_eq!(check_signature(&good_shape()), Ok(()));
}

#[test]
fn each_broken_constraint_is_named() {
    let mut s = good_shape();
    s.is_const = true;
    assert_eq!(check_signature(&s), Err(SignatureFault::Const));
    let mut s = good_shape();
    s.is_unsafe = true;
    assert_eq!(check_signature(&s), Err(SignatureFault::Unsafe));
    let mut s = good_shape();
    s.is_async = true;
    assert_eq!(check_signature(&s), Err(SignatureFault::Async));
    let mut s = good_shape();
    s.is_public = true;
    assert_eq!(check_signature(&s), Err(SignatureFault::Visibility));
    let mut s = good_shape();
    s.has_abi = true;
    assert_eq!(check_signature(&s), Err(SignatureFault::Abi));
    let mut s = good_shape();
    s.n_params = 0;
    assert_eq!(check_signature(&s), Err(SignatureFault::ParamCount));
    let mut s = good_shape();
    s.n_params = 2;
    assert_eq!(check_signature(&s), Err(SignatureFault::ParamCount));
    let mut s = good_shape();
    s.n_generics = 1;
    assert_eq!(check_signature(&s), Err(SignatureFault::Generic));
    let mut s = good_shape();
    s.has_where_clause = true;
    assert_eq!(check_signature(&s), Err(SignatureFault::WhereClause));
    let mut s = good_shape();
    s.is_variadic = true;
    assert_eq!(check_signature(&s), Err(SignatureFault::Variadic));
    let mut s = good_shape();
    s.returns_value = true;
    assert_eq!(check_signature(&s), Err(SignatureFault::ReturnValue));
}

#[test]
fn first_broken_constraint_wins() {
    let mut s = good_shape();
    s.is_async = true;
    s.returns_value = true;
    assert_eq!(check_signature(&s), Err(SignatureFault::Async));
}

#[test]
fn fault_messages_name_the_constraint() {
    assert_eq!(SignatureFault::ParamCount.message(), "entry function must take exactly one parameter");
    assert_eq!(SignatureFault::ReturnValue.message(), "entry function must not return a value");
    assert_eq!(SignatureFault::Async.message(), "entry function must not be `async`");
}

#[test]
fn missing_name_is_refused() {
    let a = args(None, true, false, false, None);
    assert_eq!(plan_entry(&a, &good_shape()).err(), Some(EntryError::MissingName));
}

#[test]
fn missing_name_is_reported_before_signature() {
    let a = args(None, true, false, false, None);
    let mut s = good_shape();
    s.is_async = true;
    assert_eq!(plan_entry(&a, &s).err(), Some(EntryError::MissingName));
}

#[test]
fn invalid_signature_is_refused_for_every_role() {
    let a = args(Some("demo"), true, true, true, None);
    let mut s = good_shape();
    s.n_generics = 2;
    assert_eq!(plan_entry(&a, &s).err(), Some(EntryError::Signature(SignatureFault::Generic)));
}

#[test]
fn all_roles_give_one_descriptor_each_and_one_trampoline() {
    let a = args(Some("demo"), true, true, true, Some("Demo app."));
    let p = plan_entry(&a, &good_shape()).ok().unwrap();
    assert_eq!(p.module, b"__init_func_demo_".to_vec());
    assert_eq!(p.trampoline, b"__demo_main_func".to_vec());
    let c = p.component.unwrap();
    assert_eq!(c.role, Role::Component);
    assert_eq!(c.section, b".rti_fn.4".to_vec());
    assert_eq!(c.record, b"__demo_component_seg".to_vec());
    assert_eq!(c.record_type, b"__demo_component_seg_struct".to_vec());
    assert_eq!(c.func, b"__demo_component_func".to_vec());
    let ap = p.app.unwrap();
    assert_eq!(ap.role, Role::App);
    assert_eq!(ap.section, b".rti_fn.6".to_vec());
    assert_eq!(ap.record, b"__demo_app_seg".to_vec());
    assert_eq!(ap.func, b"__demo_app_func".to_vec());
    let sh = p.cmd.unwrap();
    assert_eq!(sh.section, b"FSymTab".to_vec());
    assert_eq!(sh.string_section, b".rodata.name".to_vec());
    assert_eq!(sh.record, b"__demo_cmd_seg".to_vec());
    assert_eq!(sh.record_type, b"__demo_cmd_seg_struct".to_vec());
    assert_eq!(sh.name_symbol, b"__demo_cmd_namestr".to_vec());
    assert_eq!(sh.desc_symbol, b"__demo_cmd_descstr".to_vec());
    assert_eq!(sh.name_c_string, b"demo\0".to_vec());
    assert_eq!(sh.desc_c_string, b"Demo app.\0".to_vec());
}

#[test]
fn only_requested_roles_get_descriptors() {
    let a = args(Some("log_info"), false, false, true, Some("Print an INFO line"));
    let p = plan_entry(&a, &good_shape()).ok().unwrap();
    assert!(p.component.is_none());
    assert!(p.app.is_none());
    assert!(p.cmd.is_some());
    let a = args(Some("boot"), true, false, false, None);
    let p = plan_entry(&a, &good_shape()).ok().unwrap();
    assert!(p.component.is_some());
    assert!(p.app.is_none());
    assert!(p.cmd.is_none());
    assert_eq!(p.trampoline, b"__boot_main_func".to_vec());
}

#[test]
fn no_roles_still_give_the_trampoline() {
    let a = args(Some("plain"), false, false, false, None);
    let p = plan_entry(&a, &good_shape()).ok().unwrap();
    assert_eq!(p.trampoline, b"__plain_main_func".to_vec());
    assert!(p.component.is_none() && p.app.is_none() && p.cmd.is_none());
}

#[test]
fn a_flag_set_to_false_still_requests_its_role() {
    let a = EntryArgs {
        name: Some(b"x".to_vec()),
        component: Some(false),
        app: None,
        cmd: None,
        desc: None,
    };
    let p = plan_entry(&a, &good_shape()).ok().unwrap();
    assert!(p.component.is_some());
}

#[test]
fn command_without_description_gets_the_default() {
    let a = args(Some("hello"), false, false, true, None);
    let p = plan_entry(&a, &good_shape()).ok().unwrap();
    assert_eq!(p.cmd.unwrap().desc_c_string, b"No desc\0".to_vec());
}

#[test]
fn wrappers_report_success() {
    assert_eq!(ENTRY_STATUS, 0);
}
