use kc_osm::macros::{class_name_bytes, dispatches_typed, handler_from_snake, handler_name, message_struct_for, service_interface_guid};

#[test]
fn message_structures() {
    assert_eq!(message_struct_for("FrobWorldEnd"), "sFrobMsg");
    assert_eq!(message_struct_for("FrobInvBegin"), "sFrobMsg");
    assert_eq!(message_struct_for("Timer"), "sScrTimerMsg");
    assert_eq!(message_struct_for("DoorHalt"), "sDoorMsg");
    assert_eq!(message_struct_for("Damage"), "sDamageScrMsg");
    assert_eq!(message_struct_for("Slain"), "sSlayMsg");
    assert_eq!(message_struct_for("Contained"), "sContainedScrMsg");
    assert_eq!(message_struct_for("Container"), "sContainerScrMsg");
    assert_eq!(message_struct_for("Stimulus"), "sStimMsg");
    assert_eq!(message_struct_for("MotionFlagReached"), "sBodyMsg");
    assert_eq!(message_struct_for("PhysContactDestroy"), "sPhysMsg");
    assert_eq!(message_struct_for("CreatureRoomExit"), "sRoomMsg");
    assert_eq!(message_struct_for("TweqComplete"), "sTweqMsg");
    assert_eq!(message_struct_for("CombineAdd"), "sCombineScrMsg");
    assert_eq!(message_struct_for("StartWindup"), "sAttackMsg");
    assert_eq!(message_struct_for("QuestChange"), "sQuestMsg");
    assert_eq!(message_struct_for("MediumTransition"), "sMediumTransMsg");
    assert_eq!(message_struct_for("TurnOn"), "sScrMsg");
    assert_eq!(message_struct_for("timer"), "sScrMsg");
}

#[test]
fn typed_dispatch() {
    assert!(dispatches_typed("FrobToolEnd"));
    assert!(!dispatches_typed("BeginScript"));
}

#[test]
fn handler_names() {
    assert_eq!(handler_name("FrobWorldEnd"), "on_frob_world_end");
    assert_eq!(handler_name("BeginScript"), "on_begin_script");
    assert_eq!(handler_name("TurnOn"), "on_turn_on");
    assert_eq!(handler_name("Timer"), "on_timer");
    assert_eq!(handler_from_snake("door_open"), "on_door_open");
}

#[test]
fn class_name_is_nul_terminated() {
    assert_eq!(class_name_bytes("KeyringTarget"), b"KeyringTarget\0".to_vec());
    assert_eq!(class_name_bytes(""), vec![0u8]);
}

#[test]
fn service_guid_attribute() {
    assert_eq!(service_interface_guid("Container"), Some("7D00017D-7BFD-134C-8348-00AA00A82B51".to_string()));
    assert_eq!(service_interface_guid("Debug"), Some("D70000D7-7B57-12A6-8348-00AA00A82B51".to_string()));
    assert_eq!(service_interface_guid("NoSuchService"), None);
}
