use mirai::command::{
    apply_update, command_name, DynamicEnumAction, DynamicEnumError, DynamicEnums, HandlerOutput,
    UpdateDynamicEnum,
};

fn strings(v: &[&str]) -> Vec<String> {
    v.iter().map(|s| s.to_string()).collect()
}

#[test]
fn handler_output_builder() {
    let out = HandlerOutput::new().message("Teleported %s".to_string()).param("steve".to_string());
    assert_eq!(out.message, "Teleported %s");
    assert_eq!(out.parameters, vec!["steve".to_string()]);
    let empty = HandlerOutput::default();
    assert!(empty.message.is_empty());
    assert!(empty.parameters.is_empty());
    assert!(HandlerOutput::new().success().is_ok());
    assert!(HandlerOutput::new().error().is_err());
}

#[test]
fn apply_update_add_replace_remove() {
    let current = strings(&["a", "b", "c"]);
    assert_eq!(
        apply_update(current.clone(), DynamicEnumAction::Add, &strings(&["d", "a"])),
        strings(&["a", "b", "c", "d", "a"])
    );
    assert_eq!(
        apply_update(current.clone(), DynamicEnumAction::Replace, &strings(&["x"])),
        strings(&["x"])
    );
    assert_eq!(
        apply_update(strings(&["a", "b", "a", "c"]), DynamicEnumAction::Remove, &strings(&["a", "z"])),
        strings(&["b", "c"])
    );
    assert_eq!(apply_update(current, DynamicEnumAction::Remove, &[]), strings(&["a", "b", "c"]));
}

#[test]
fn add_then_remove_gives_previous_options() {
    let current = strings(&["warp1", "warp2"]);
    let added = strings(&["warp3", "warp1"]);
    let after_add = apply_update(current.clone(), DynamicEnumAction::Add, &added);
    let after_remove = apply_update(after_add, DynamicEnumAction::Remove, &added);
    assert_eq!(after_remove, strings(&["warp2"]));
}

#[test]
fn dynamic_enum_updates() {
    let mut enums = DynamicEnums::new();
    assert!(enums.options("warps").is_none());
    let options = strings(&["spawn"]);
    let missing = UpdateDynamicEnum { enum_id: "warps", options: &options, action: DynamicEnumAction::Add };
    assert_eq!(enums.update(&missing), Err(DynamicEnumError::DoesNotExist));
    assert!(enums.options("warps").is_none());

    enums.register("warps".to_string(), strings(&["home"]));
    assert_eq!(enums.update(&missing), Ok(()));
    assert_eq!(enums.options("warps").unwrap(), strings(&["home", "spawn"]));

    let remove = UpdateDynamicEnum { enum_id: "warps", options: &options, action: DynamicEnumAction::Remove };
    assert_eq!(enums.update(&remove), Ok(()));
    assert_eq!(enums.options("warps").unwrap(), strings(&["home"]));

    let new = strings(&["a", "b"]);
    let replace = UpdateDynamicEnum { enum_id: "warps", options: &new, action: DynamicEnumAction::Replace };
    assert_eq!(enums.update(&replace), Ok(()));
    assert_eq!(enums.options("warps").unwrap(), new);

    enums.register("warps".to_string(), Vec::new());
    assert_eq!(enums.options("warps").unwrap(), Vec::<String>::new());
}

#[test]
fn command_names() {
    assert_eq!(command_name("/give steve stone"), "give");
    assert_eq!(command_name("/shutdown"), "shutdown");
    assert_eq!(command_name("/héllo wörld"), "héllo");
    assert_eq!(command_name("/"), "");
    assert_eq!(command_name(""), "");
    assert_eq!(command_name(" /tp"), "");
    assert_eq!(command_name("éa b"), "a");
}
