//! The closed catalogue of action identifiers: the complete, fixed contract
//! surface a frontend must recognize. Each identifier names one
//! user-triggerable menu action; the router delivers it as an opaque event and
//! performs no interpretation of its own.

use vstd::prelude::*;
use crate::text::str_eq;

verus! {

/// One user-triggerable menu action, as a closed set rather than open-ended
/// strings: every identifier the menu can emit is enumerated here.
#[derive(Clone, Copy, PartialEq, Eq, Structural, Debug)]
pub enum ActionId {
    Preferences,
    New,
    Open,
    Save,
    SaveAs,
    ExportStl,
    ExportStep,
    ExportPdf,
    ToggleProperties,
    ToggleTerminal,
    CameraTop,
    CameraFront,
    CameraSide,
    CameraIso,
    ToggleGrid,
    ToggleExploded,
    ToggleClipping,
    Fullscreen,
    Documentation,
    Shortcuts,
}

/// The stable wire identifier of an action, as the frontend receives it.
pub open spec fn action_id_chars(a: ActionId) -> Seq<char> {
    match a {
        ActionId::Preferences => "preferences"@,
        ActionId::New => "new"@,
        ActionId::Open => "open"@,
        ActionId::Save => "save"@,
        ActionId::SaveAs => "save-as"@,
        ActionId::ExportStl => "export-stl"@,
        ActionId::ExportStep => "export-step"@,
        ActionId::ExportPdf => "export-pdf"@,
        ActionId::ToggleProperties => "toggle-properties"@,
        ActionId::ToggleTerminal => "toggle-terminal"@,
        ActionId::CameraTop => "camera-top"@,
        ActionId::CameraFront => "camera-front"@,
        ActionId::CameraSide => "camera-side"@,
        ActionId::CameraIso => "camera-iso"@,
        ActionId::ToggleGrid => "toggle-grid"@,
        ActionId::ToggleExploded => "toggle-exploded"@,
        ActionId::ToggleClipping => "toggle-clipping"@,
        ActionId::Fullscreen => "fullscreen"@,
        ActionId::Documentation => "documentation"@,
        ActionId::Shortcuts => "shortcuts"@,
    }
}

/// The wire identifier of `a`, as a string.
pub fn action_id_str(a: ActionId) -> (s: String)
    ensures
        s@ == action_id_chars(a),
{
    match a {
        ActionId::Preferences => "preferences".to_owned(),
        ActionId::New => "new".to_owned(),
        ActionId::Open => "open".to_owned(),
        ActionId::Save => "save".to_owned(),
        ActionId::SaveAs => "save-as".to_owned(),
        ActionId::ExportStl => "export-stl".to_owned(),
        ActionId::ExportStep => "export-step".to_owned(),
        ActionId::ExportPdf => "export-pdf".to_owned(),
        ActionId::ToggleProperties => "toggle-properties".to_owned(),
        ActionId::ToggleTerminal => "toggle-terminal".to_owned(),
        ActionId::CameraTop => "camera-top".to_owned(),
        ActionId::CameraFront => "camera-front".to_owned(),
        ActionId::CameraSide => "camera-side".to_owned(),
        ActionId::CameraIso => "camera-iso".to_owned(),
        ActionId::ToggleGrid => "toggle-grid".to_owned(),
        ActionId::ToggleExploded => "toggle-exploded".to_owned(),
        ActionId::ToggleClipping => "toggle-clipping".to_owned(),
        ActionId::Fullscreen => "fullscreen".to_owned(),
        ActionId::Documentation => "documentation".to_owned(),
        ActionId::Shortcuts => "shortcuts".to_owned(),
    }
}

/// Where an action stands in the fixed catalogue.
pub open spec fn action_rank(a: ActionId) -> int {
    match a {
        ActionId::Preferences => 0,
        ActionId::New => 1,
        ActionId::Open => 2,
        ActionId::Save => 3,
        ActionId::SaveAs => 4,
        ActionId::ExportStl => 5,
        ActionId::ExportStep => 6,
        ActionId::ExportPdf => 7,
        ActionId::ToggleProperties => 8,
        ActionId::ToggleTerminal => 9,
        ActionId::CameraTop => 10,
        ActionId::CameraFront => 11,
        ActionId::CameraSide => 12,
        ActionId::CameraIso => 13,
        ActionId::ToggleGrid => 14,
        ActionId::ToggleExploded => 15,
        ActionId::ToggleClipping => 16,
        ActionId::Fullscreen => 17,
        ActionId::Documentation => 18,
        ActionId::Shortcuts => 19,
    }
}

/// The complete catalogue of action identifiers, in menu order.
pub open spec fn action_catalogue() -> Seq<ActionId> {
    seq![
        ActionId::Preferences,
        ActionId::New,
        ActionId::Open,
        ActionId::Save,
        ActionId::SaveAs,
        ActionId::ExportStl,
        ActionId::ExportStep,
        ActionId::ExportPdf,
        ActionId::ToggleProperties,
        ActionId::ToggleTerminal,
        ActionId::CameraTop,
        ActionId::CameraFront,
        ActionId::CameraSide,
        ActionId::CameraIso,
        ActionId::ToggleGrid,
        ActionId::ToggleExploded,
        ActionId::ToggleClipping,
        ActionId::Fullscreen,
        ActionId::Documentation,
        ActionId::Shortcuts,
    ]
}

/// The catalogue is exact: twenty identifiers, no action twice, and every
/// action of the closed set present.
pub proof fn lemma_catalogue_exact()
    ensures
        action_catalogue().len() == 20,
        forall|i: int, j: int|
            0 <= i < j < action_catalogue().len() ==> action_catalogue()[i]
                != action_catalogue()[j],
        forall|a: ActionId| action_catalogue().contains(a),
{
    assert forall|i: int| 0 <= i < 20 implies #[trigger] action_rank(action_catalogue()[i])
        == i by {}
    assert forall|i: int, j: int|
        0 <= i < j < action_catalogue().len() implies action_catalogue()[i]
        != action_catalogue()[j] by {
        assert(action_rank(action_catalogue()[i]) == i);
        assert(action_rank(action_catalogue()[j]) == j);
    }
    assert forall|a: ActionId| action_catalogue().contains(a) by {
        assert(action_catalogue()[action_rank(a)] == a);
    }
}

/// No two actions share a wire identifier: the twenty strings of the
/// catalogue are pairwise distinct.
#[verifier::rlimit(100)]
pub proof fn lemma_action_ids_injective()
    ensures
        forall|a: ActionId, b: ActionId|
            action_id_chars(a) == action_id_chars(b) ==> a == b,
{
    reveal_strlit("preferences");
    reveal_strlit("new");
    reveal_strlit("open");
    reveal_strlit("save");
    reveal_strlit("save-as");
    reveal_strlit("export-stl");
    reveal_strlit("export-step");
    reveal_strlit("export-pdf");
    reveal_strlit("toggle-properties");
    reveal_strlit("toggle-terminal");
    reveal_strlit("camera-top");
    reveal_strlit("camera-front");
    reveal_strlit("camera-side");
    reveal_strlit("camera-iso");
    reveal_strlit("toggle-grid");
    reveal_strlit("toggle-exploded");
    reveal_strlit("toggle-clipping");
    reveal_strlit("fullscreen");
    reveal_strlit("documentation");
    reveal_strlit("shortcuts");
    // Identifiers of unequal length are told apart by their lengths alone.
    assert(("preferences")@.len() == 11);
    assert(("new")@.len() == 3);
    assert(("open")@.len() == 4);
    assert(("save")@.len() == 4);
    assert(("save-as")@.len() == 7);
    assert(("export-stl")@.len() == 10);
    assert(("export-step")@.len() == 11);
    assert(("export-pdf")@.len() == 10);
    assert(("toggle-properties")@.len() == 17);
    assert(("toggle-terminal")@.len() == 15);
    assert(("camera-top")@.len() == 10);
    assert(("camera-front")@.len() == 12);
    assert(("camera-side")@.len() == 11);
    assert(("camera-iso")@.len() == 10);
    assert(("toggle-grid")@.len() == 11);
    assert(("toggle-exploded")@.len() == 15);
    assert(("toggle-clipping")@.len() == 15);
    assert(("fullscreen")@.len() == 10);
    assert(("documentation")@.len() == 13);
    assert(("shortcuts")@.len() == 9);
    // Identifiers of equal length are told apart by one character each.
    assert(("open")@[0] != ("save")@[0]);
    assert(("export-stl")@[0] != ("camera-top")@[0]);
    assert(("export-stl")@[0] != ("camera-iso")@[0]);
    assert(("export-stl")@[0] != ("fullscreen")@[0]);
    assert(("export-stl")@[7] != ("export-pdf")@[7]);
    assert(("export-pdf")@[0] != ("camera-top")@[0]);
    assert(("export-pdf")@[0] != ("camera-iso")@[0]);
    assert(("export-pdf")@[0] != ("fullscreen")@[0]);
    assert(("camera-top")@[7] != ("camera-iso")@[7]);
    assert(("camera-top")@[0] != ("fullscreen")@[0]);
    assert(("camera-iso")@[0] != ("fullscreen")@[0]);
    assert(("preferences")@[0] != ("export-step")@[0]);
    assert(("preferences")@[0] != ("camera-side")@[0]);
    assert(("preferences")@[0] != ("toggle-grid")@[0]);
    assert(("export-step")@[0] != ("camera-side")@[0]);
    assert(("export-step")@[0] != ("toggle-grid")@[0]);
    assert(("camera-side")@[0] != ("toggle-grid")@[0]);
    assert(("toggle-terminal")@[7] != ("toggle-exploded")@[7]);
    assert(("toggle-terminal")@[7] != ("toggle-clipping")@[7]);
    assert(("toggle-exploded")@[7] != ("toggle-clipping")@[7]);
    assert forall|a: ActionId, b: ActionId|
        action_id_chars(a) == action_id_chars(b) implies a == b by {}
}

/// Parses a wire identifier back to its action: `None` exactly when `s` names
/// no action of the catalogue.
pub fn parse_action_id(s: &str) -> (r: Option<ActionId>)
    ensures
        match r {
            Some(a) => s@ == action_id_chars(a),
            None => forall|a: ActionId| s@ != action_id_chars(a),
        },
{
    if str_eq(s, "preferences") {
        Some(ActionId::Preferences)
    } else if str_eq(s, "new") {
        Some(ActionId::New)
    } else if str_eq(s, "open") {
        Some(ActionId::Open)
    } else if str_eq(s, "save") {
        Some(ActionId::Save)
    } else if str_eq(s, "save-as") {
        Some(ActionId::SaveAs)
    } else if str_eq(s, "export-stl") {
        Some(ActionId::ExportStl)
    } else if str_eq(s, "export-step") {
        Some(ActionId::ExportStep)
    } else if str_eq(s, "export-pdf") {
        Some(ActionId::ExportPdf)
    } else if str_eq(s, "toggle-properties") {
        Some(ActionId::ToggleProperties)
    } else if str_eq(s, "toggle-terminal") {
        Some(ActionId::ToggleTerminal)
    } else if str_eq(s, "camera-top") {
        Some(ActionId::CameraTop)
    } else if str_eq(s, "camera-front") {
        Some(ActionId::CameraFront)
    } else if str_eq(s, "camera-side") {
        Some(ActionId::CameraSide)
    } else if str_eq(s, "camera-iso") {
        Some(ActionId::CameraIso)
    } else if str_eq(s, "toggle-grid") {
        Some(ActionId::ToggleGrid)
    } else if str_eq(s, "toggle-exploded") {
        Some(ActionId::ToggleExploded)
    } else if str_eq(s, "toggle-clipping") {
        Some(ActionId::ToggleClipping)
    } else if str_eq(s, "fullscreen") {
        Some(ActionId::Fullscreen)
    } else if str_eq(s, "documentation") {
        Some(ActionId::Documentation)
    } else if str_eq(s, "shortcuts") {
        Some(ActionId::Shortcuts)
    } else {
        None
    }
}

} // verus!
