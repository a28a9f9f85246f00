//! The logic of the script attribute macros: which message structure each
//! engine message carries, the handler method each message calls, and the
//! interface GUID of each named script service.
use vstd::prelude::*;
use vstd::string::StringExecFns;
use vstd::utf8::encode_utf8;
use crate::guid::{Guid, ScriptService, guid_text, is_lg_guid_of, service_id, service_name};
use crate::text::str_eq;

verus! {

/// The message structure an engine message carries. Frob, timer, door,
/// damage, slay, containment, stimulus, body, physics, room, tweq, combine,
/// attack, quest and medium messages extend `sScrMsg`; all others are plain.
pub open spec fn message_struct(m: Seq<char>) -> Seq<char> {
    if m == "FrobWorldBegin"@ || m == "FrobWorldEnd"@ || m == "FrobToolBegin"@ || m == "FrobToolEnd"@ || m == "FrobInvBegin"@ || m == "FrobInvEnd"@ {
        "sFrobMsg"@
    } else if m == "Timer"@ {
        "sScrTimerMsg"@
    } else if m == "DoorOpen"@ || m == "DoorClose"@ || m == "DoorOpening"@ || m == "DoorClosing"@ || m == "DoorHalt"@ {
        "sDoorMsg"@
    } else if m == "Damage"@ {
        "sDamageScrMsg"@
    } else if m == "Slain"@ {
        "sSlayMsg"@
    } else if m == "Contained"@ {
        "sContainedScrMsg"@
    } else if m == "Container"@ {
        "sContainerScrMsg"@
    } else if m == "Stimulus"@ {
        "sStimMsg"@
    } else if m == "MotionStart"@ || m == "MotionEnd"@ || m == "MotionFlagReached"@ {
        "sBodyMsg"@
    } else if m == "PhysMadePhysical"@ || m == "PhysMadeNonPhysical"@ || m == "PhysCollision"@ || m == "PhysFellAsleep"@ || m == "PhysWokeUp"@ || m == "PhysContactCreate"@ || m == "PhysContactDestroy"@ {
        "sPhysMsg"@
    } else if m == "ObjRoomTransit"@ || m == "CreatureRoomEnter"@ || m == "CreatureRoomExit"@ {
        "sRoomMsg"@
    } else if m == "TweqComplete"@ {
        "sTweqMsg"@
    } else if m == "CombineAdd"@ {
        "sCombineScrMsg"@
    } else if m == "StartAttack"@ || m == "StartWindup"@ || m == "EndAttack"@ {
        "sAttackMsg"@
    } else if m == "QuestChange"@ {
        "sQuestMsg"@
    } else if m == "MediumTransition"@ {
        "sMediumTransMsg"@
    } else {
        "sScrMsg"@
    }
}

/// Every member of a message family carries its family's structure: the
/// six frob messages `sFrobMsg`, the five door messages `sDoorMsg`, the
/// three body-motion messages `sBodyMsg`, the seven physics messages
/// `sPhysMsg`, the three room messages `sRoomMsg`, the three attack messages
/// `sAttackMsg`, and each single-message family its own structure.
pub proof fn lemma_message_families()
    ensures
        message_struct("FrobWorldBegin"@) == "sFrobMsg"@,
        message_struct("FrobWorldEnd"@) == "sFrobMsg"@,
        message_struct("FrobToolBegin"@) == "sFrobMsg"@,
        message_struct("FrobToolEnd"@) == "sFrobMsg"@,
        message_struct("FrobInvBegin"@) == "sFrobMsg"@,
        message_struct("FrobInvEnd"@) == "sFrobMsg"@,
        message_struct("Timer"@) == "sScrTimerMsg"@,
        message_struct("DoorOpen"@) == "sDoorMsg"@,
        message_struct("DoorClose"@) == "sDoorMsg"@,
        message_struct("DoorOpening"@) == "sDoorMsg"@,
        message_struct("DoorClosing"@) == "sDoorMsg"@,
        message_struct("DoorHalt"@) == "sDoorMsg"@,
        message_struct("Damage"@) == "sDamageScrMsg"@,
        message_struct("Slain"@) == "sSlayMsg"@,
        message_struct("Contained"@) == "sContainedScrMsg"@,
        message_struct("Container"@) == "sContainerScrMsg"@,
        message_struct("Stimulus"@) == "sStimMsg"@,
        message_struct("MotionStart"@) == "sBodyMsg"@,
        message_struct("MotionEnd"@) == "sBodyMsg"@,
        message_struct("MotionFlagReached"@) == "sBodyMsg"@,
        message_struct("PhysMadePhysical"@) == "sPhysMsg"@,
        message_struct("PhysMadeNonPhysical"@) == "sPhysMsg"@,
        message_struct("PhysCollision"@) == "sPhysMsg"@,
        message_struct("PhysFellAsleep"@) == "sPhysMsg"@,
        message_struct("PhysWokeUp"@) == "sPhysMsg"@,
        message_struct("PhysContactCreate"@) == "sPhysMsg"@,
        message_struct("PhysContactDestroy"@) == "sPhysMsg"@,
        message_struct("ObjRoomTransit"@) == "sRoomMsg"@,
        message_struct("CreatureRoomEnter"@) == "sRoomMsg"@,
        message_struct("CreatureRoomExit"@) == "sRoomMsg"@,
        message_struct("TweqComplete"@) == "sTweqMsg"@,
        message_struct("CombineAdd"@) == "sCombineScrMsg"@,
        message_struct("StartAttack"@) == "sAttackMsg"@,
        message_struct("StartWindup"@) == "sAttackMsg"@,
        message_struct("EndAttack"@) == "sAttackMsg"@,
        message_struct("QuestChange"@) == "sQuestMsg"@,
        message_struct("MediumTransition"@) == "sMediumTransMsg"@,
{
    reveal_strlit("CombineAdd");
    assert("CombineAdd"@.len() == 10);
    reveal_strlit("Contained");
    assert("Contained"@.len() == 9);
    reveal_strlit("Container");
    assert("Container"@.len() == 9);
    reveal_strlit("CreatureRoomEnter");
    assert("CreatureRoomEnter"@.len() == 17);
    reveal_strlit("CreatureRoomExit");
    assert("CreatureRoomExit"@.len() == 16);
    reveal_strlit("Damage");
    assert("Damage"@.len() == 6);
    reveal_strlit("DoorClose");
    assert("DoorClose"@.len() == 9);
    reveal_strlit("DoorClosing");
    assert("DoorClosing"@.len() == 11);
    reveal_strlit("DoorHalt");
    assert("DoorHalt"@.len() == 8);
    reveal_strlit("DoorOpen");
    assert("DoorOpen"@.len() == 8);
    reveal_strlit("DoorOpening");
    assert("DoorOpening"@.len() == 11);
    reveal_strlit("EndAttack");
    assert("EndAttack"@.len() == 9);
    reveal_strlit("FrobInvBegin");
    assert("FrobInvBegin"@.len() == 12);
    reveal_strlit("FrobInvEnd");
    assert("FrobInvEnd"@.len() == 10);
    reveal_strlit("FrobToolBegin");
    assert("FrobToolBegin"@.len() == 13);
    reveal_strlit("FrobToolEnd");
    assert("FrobToolEnd"@.len() == 11);
    reveal_strlit("FrobWorldBegin");
    assert("FrobWorldBegin"@.len() == 14);
    reveal_strlit("FrobWorldEnd");
    assert("FrobWorldEnd"@.len() == 12);
    reveal_strlit("MediumTransition");
    assert("MediumTransition"@.len() == 16);
    reveal_strlit("MotionEnd");
    assert("MotionEnd"@.len() == 9);
    reveal_strlit("MotionFlagReached");
    assert("MotionFlagReached"@.len() == 17);
    reveal_strlit("MotionStart");
    assert("MotionStart"@.len() == 11);
    reveal_strlit("ObjRoomTransit");
    assert("ObjRoomTransit"@.len() == 14);
    reveal_strlit("PhysCollision");
    assert("PhysCollision"@.len() == 13);
    reveal_strlit("PhysContactCreate");
    assert("PhysContactCreate"@.len() == 17);
    reveal_strlit("PhysContactDestroy");
    assert("PhysContactDestroy"@.len() == 18);
    reveal_strlit("PhysFellAsleep");
    assert("PhysFellAsleep"@.len() == 14);
    reveal_strlit("PhysMadeNonPhysical");
    assert("PhysMadeNonPhysical"@.len() == 19);
    reveal_strlit("PhysMadePhysical");
    assert("PhysMadePhysical"@.len() == 16);
    reveal_strlit("PhysWokeUp");
    assert("PhysWokeUp"@.len() == 10);
    reveal_strlit("QuestChange");
    assert("QuestChange"@.len() == 11);
    reveal_strlit("Slain");
    assert("Slain"@.len() == 5);
    reveal_strlit("StartAttack");
    assert("StartAttack"@.len() == 11);
    reveal_strlit("StartWindup");
    assert("StartWindup"@.len() == 11);
    reveal_strlit("Stimulus");
    assert("Stimulus"@.len() == 8);
    reveal_strlit("Timer");
    assert("Timer"@.len() == 5);
    reveal_strlit("TweqComplete");
    assert("TweqComplete"@.len() == 12);
    reveal_strlit("sAttackMsg");
    assert("sAttackMsg"@.len() == 10);
    reveal_strlit("sBodyMsg");
    assert("sBodyMsg"@.len() == 8);
    reveal_strlit("sCombineScrMsg");
    assert("sCombineScrMsg"@.len() == 14);
    reveal_strlit("sContainedScrMsg");
    assert("sContainedScrMsg"@.len() == 16);
    reveal_strlit("sContainerScrMsg");
    assert("sContainerScrMsg"@.len() == 16);
    reveal_strlit("sDamageScrMsg");
    assert("sDamageScrMsg"@.len() == 13);
    reveal_strlit("sDoorMsg");
    assert("sDoorMsg"@.len() == 8);
    reveal_strlit("sFrobMsg");
    assert("sFrobMsg"@.len() == 8);
    reveal_strlit("sMediumTransMsg");
    assert("sMediumTransMsg"@.len() == 15);
    reveal_strlit("sPhysMsg");
    assert("sPhysMsg"@.len() == 8);
    reveal_strlit("sQuestMsg");
    assert("sQuestMsg"@.len() == 9);
    reveal_strlit("sRoomMsg");
    assert("sRoomMsg"@.len() == 8);
    reveal_strlit("sScrMsg");
    assert("sScrMsg"@.len() == 7);
    reveal_strlit("sScrTimerMsg");
    assert("sScrTimerMsg"@.len() == 12);
    reveal_strlit("sSlayMsg");
    assert("sSlayMsg"@.len() == 8);
    reveal_strlit("sStimMsg");
    assert("sStimMsg"@.len() == 8);
    reveal_strlit("sTweqMsg");
    assert("sTweqMsg"@.len() == 8);
    assert("FrobWorldBegin"@[0] != "PhysFellAsleep"@[0]);
    assert("FrobWorldBegin"@[0] != "ObjRoomTransit"@[0]);
    assert("FrobWorldEnd"@[4] != "FrobInvBegin"@[4]);
    assert("FrobWorldEnd"@[0] != "TweqComplete"@[0]);
    assert("FrobToolBegin"@[0] != "PhysCollision"@[0]);
    assert("FrobToolEnd"@[0] != "DoorOpening"@[0]);
    assert("FrobToolEnd"@[0] != "DoorClosing"@[0]);
    assert("FrobToolEnd"@[0] != "MotionStart"@[0]);
    assert("FrobToolEnd"@[0] != "StartAttack"@[0]);
    assert("FrobToolEnd"@[0] != "StartWindup"@[0]);
    assert("FrobToolEnd"@[0] != "QuestChange"@[0]);
    assert("FrobInvBegin"@[0] != "TweqComplete"@[0]);
    assert("FrobInvEnd"@[0] != "PhysWokeUp"@[0]);
    assert("FrobInvEnd"@[0] != "CombineAdd"@[0]);
    assert("Timer"@[0] != "Slain"@[0]);
    assert("DoorOpen"@[4] != "DoorHalt"@[4]);
    assert("DoorOpen"@[0] != "Stimulus"@[0]);
    assert("DoorClose"@[0] != "Contained"@[0]);
    assert("DoorClose"@[0] != "Container"@[0]);
    assert("DoorClose"@[0] != "MotionEnd"@[0]);
    assert("DoorClose"@[0] != "EndAttack"@[0]);
    assert("DoorOpening"@[4] != "DoorClosing"@[4]);
    assert("DoorOpening"@[0] != "MotionStart"@[0]);
    assert("DoorOpening"@[0] != "StartAttack"@[0]);
    assert("DoorOpening"@[0] != "StartWindup"@[0]);
    assert("DoorOpening"@[0] != "QuestChange"@[0]);
    assert("DoorClosing"@[0] != "MotionStart"@[0]);
    assert("DoorClosing"@[0] != "StartAttack"@[0]);
    assert("DoorClosing"@[0] != "StartWindup"@[0]);
    assert("DoorClosing"@[0] != "QuestChange"@[0]);
    assert("DoorHalt"@[0] != "Stimulus"@[0]);
    assert("Contained"@[8] != "Container"@[8]);
    assert("Contained"@[0] != "MotionEnd"@[0]);
    assert("Contained"@[0] != "EndAttack"@[0]);
    assert("Container"@[0] != "MotionEnd"@[0]);
    assert("Container"@[0] != "EndAttack"@[0]);
    assert("MotionStart"@[0] != "StartAttack"@[0]);
    assert("MotionStart"@[0] != "StartWindup"@[0]);
    assert("MotionStart"@[0] != "QuestChange"@[0]);
    assert("MotionEnd"@[0] != "EndAttack"@[0]);
    assert("MotionFlagReached"@[0] != "PhysContactCreate"@[0]);
    assert("MotionFlagReached"@[0] != "CreatureRoomEnter"@[0]);
    assert("PhysMadePhysical"@[0] != "CreatureRoomExit"@[0]);
    assert("PhysMadePhysical"@[0] != "MediumTransition"@[0]);
    assert("PhysFellAsleep"@[0] != "ObjRoomTransit"@[0]);
    assert("PhysWokeUp"@[0] != "CombineAdd"@[0]);
    assert("PhysContactCreate"@[0] != "CreatureRoomEnter"@[0]);
    assert("CreatureRoomExit"@[0] != "MediumTransition"@[0]);
    assert("StartAttack"@[5] != "StartWindup"@[5]);
    assert("StartAttack"@[0] != "QuestChange"@[0]);
    assert("StartWindup"@[0] != "QuestChange"@[0]);
}

/// Returns the message structure type name for a Dark Engine message name.
pub fn message_struct_for(message: &str) -> (r: &'static str)
    ensures
        r@ == message_struct(message@),
{
    if str_eq(message, "FrobWorldBegin") || str_eq(message, "FrobWorldEnd") || str_eq(message, "FrobToolBegin") || str_eq(message, "FrobToolEnd") || str_eq(message, "FrobInvBegin") || str_eq(message, "FrobInvEnd") {
        "sFrobMsg"
    } else if str_eq(message, "Timer") {
        "sScrTimerMsg"
    } else if str_eq(message, "DoorOpen") || str_eq(message, "DoorClose") || str_eq(message, "DoorOpening") || str_eq(message, "DoorClosing") || str_eq(message, "DoorHalt") {
        "sDoorMsg"
    } else if str_eq(message, "Damage") {
        "sDamageScrMsg"
    } else if str_eq(message, "Slain") {
        "sSlayMsg"
    } else if str_eq(message, "Contained") {
        "sContainedScrMsg"
    } else if str_eq(message, "Container") {
        "sContainerScrMsg"
    } else if str_eq(message, "Stimulus") {
        "sStimMsg"
    } else if str_eq(message, "MotionStart") || str_eq(message, "MotionEnd") || str_eq(message, "MotionFlagReached") {
        "sBodyMsg"
    } else if str_eq(message, "PhysMadePhysical") || str_eq(message, "PhysMadeNonPhysical") || str_eq(message, "PhysCollision") || str_eq(message, "PhysFellAsleep") || str_eq(message, "PhysWokeUp") || str_eq(message, "PhysContactCreate") || str_eq(message, "PhysContactDestroy") {
        "sPhysMsg"
    } else if str_eq(message, "ObjRoomTransit") || str_eq(message, "CreatureRoomEnter") || str_eq(message, "CreatureRoomExit") {
        "sRoomMsg"
    } else if str_eq(message, "TweqComplete") {
        "sTweqMsg"
    } else if str_eq(message, "CombineAdd") {
        "sCombineScrMsg"
    } else if str_eq(message, "StartAttack") || str_eq(message, "StartWindup") || str_eq(message, "EndAttack") {
        "sAttackMsg"
    } else if str_eq(message, "QuestChange") {
        "sQuestMsg"
    } else if str_eq(message, "MediumTransition") {
        "sMediumTransMsg"
    } else {
        "sScrMsg"
    }
}

/// Whether a handler for the message receives an extended structure (so
/// the dispatcher must cast the base message).
pub fn dispatches_typed(message: &str) -> (r: bool)
    ensures
        r == (message_struct(message@) != "sScrMsg"@),
{
    let t = message_struct_for(message);
    !str_eq(t, "sScrMsg")
}

/// What `heck`'s `to_snake_case` makes of a text.
pub uninterp spec fn snake_case(s: Seq<char>) -> Seq<char>;

/// Converts a message name to snake case with `heck::ToSnakeCase`.
///
/// Trusted: the result is named `snake_case` of the text; how `heck` splits
/// words is left unsaid.
#[verifier::external_body]
fn to_snake_case(s: &str) -> (r: String)
    ensures
        r@ == snake_case(s@),
{
    heck::ToSnakeCase::to_snake_case(s)
}

/// The handler method name for an already snake-cased message name.
pub fn handler_from_snake(snake: &str) -> (r: String)
    ensures
        r@ == "on_"@ + snake@,
{
    let mut name = "on_".to_owned();
    name.append(snake);
    name
}

/// The handler method a message is dispatched to, e.g. `on_frob_world_end`
/// for `FrobWorldEnd`.
pub fn handler_name(message: &str) -> (r: String)
    ensures
        r@ == "on_"@ + snake_case(message@),
{
    let snake = to_snake_case(message);
    handler_from_snake(snake.as_str())
}

/// The NUL-terminated bytes of a script class name, as `GetClassName` hands it out.
pub fn class_name_bytes(name: &str) -> (r: Vec<u8>)
    ensures
        r@ == encode_utf8(name@).push(0u8),
{
    let mut bytes = vstd::slice::slice_to_vec(name.as_bytes());
    bytes.push(0u8);
    bytes
}

/// The interface GUID text for a named script service, or `None` when no
/// service has that name.
pub fn service_interface_guid(name: &str) -> (r: Option<String>)
    ensures
        r is None <==> forall|s: ScriptService| service_name(s) != name@,
        forall|s: ScriptService|
            service_name(s) == name@ ==> (r matches Some(text) && exists|g: Guid|
                is_lg_guid_of(g, service_id(s) as u32) && text@ == guid_text(g)),
{
    match ScriptService::from_name(name) {
        Some(s) => Some(s.guid_string()),
        None => None,
    }
}

} // verus!
