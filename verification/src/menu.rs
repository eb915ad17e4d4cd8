//! The declarative menu tree: an immutable hierarchy of submenus, actions,
//! separators and predefined items, built once at startup. Builders mirror the
//! declarative style the menu is written in and track, as they go, the flat
//! sequence of action identifiers the tree exposes — the namespace the
//! frontend consumes.

use vstd::prelude::*;
use crate::actions::{ActionId, action_catalogue};

verus! {

/// One of the fixed OS-level behaviors a menu leaf may stand for; its effect
/// is supplied entirely by the host platform, never by application code.
#[derive(Clone, Copy, PartialEq, Eq, Structural, Debug)]
pub enum PredefinedKind {
    About,
    Quit,
    Undo,
    Redo,
    Cut,
    Copy,
    Paste,
    SelectAll,
    Minimize,
    Maximize,
    CloseWindow,
    Hide,
    HideOthers,
    ShowAll,
    Services,
}

/// One element of the menu tree.
pub enum MenuNode {
    /// A custom leaf: activating it is delivered to the frontend as an event
    /// carrying the stable identifier `id`.
    Action { id: ActionId, label: String },
    /// An ordered branch; well-formed only with at least one child.
    Submenu { label: String, children: Vec<MenuNode> },
    /// Pure visual grouping: carries no identifier, triggers no action.
    Separator,
    /// A leaf whose behavior the host platform owns.
    Predefined { kind: PredefinedKind },
}

/// The action identifiers exposed by one node, in menu order.
pub open spec fn node_action_ids(n: MenuNode) -> Seq<ActionId>
    decreases n,
{
    match n {
        MenuNode::Action { id, .. } => seq![id],
        MenuNode::Submenu { children, .. } => nodes_action_ids(children@),
        MenuNode::Separator => Seq::empty(),
        MenuNode::Predefined { .. } => Seq::empty(),
    }
}

/// The action identifiers exposed by a sequence of nodes, left to right.
pub open spec fn nodes_action_ids(ns: Seq<MenuNode>) -> Seq<ActionId>
    decreases ns,
{
    if ns.len() == 0 {
        Seq::empty()
    } else {
        node_action_ids(ns.first()) + nodes_action_ids(ns.drop_first())
    }
}

/// Well-formedness of one node: every submenu anywhere below it has at least
/// one child.
pub open spec fn node_wf(n: MenuNode) -> bool
    decreases n,
{
    match n {
        MenuNode::Submenu { children, .. } => children@.len() > 0 && nodes_wf(children@),
        _ => true,
    }
}

/// Well-formedness of a sequence of nodes.
pub open spec fn nodes_wf(ns: Seq<MenuNode>) -> bool
    decreases ns,
{
    ns.len() == 0 || (node_wf(ns.first()) && nodes_wf(ns.drop_first()))
}

/// True when `n` is a submenu labelled `label`.
pub open spec fn is_submenu_labeled(n: MenuNode, label: Seq<char>) -> bool {
    match n {
        MenuNode::Submenu { label: l, .. } => l@ == label,
        _ => false,
    }
}

proof fn lemma_ids_push(ns: Seq<MenuNode>, n: MenuNode)
    ensures
        nodes_action_ids(ns.push(n)) == nodes_action_ids(ns) + node_action_ids(n),
    decreases ns.len(),
{
    if ns.len() == 0 {
        assert(ns.push(n).drop_first() =~= Seq::<MenuNode>::empty());
        assert(ns.push(n).first() == n);
        assert(nodes_action_ids(ns.push(n)) == node_action_ids(ns.push(n).first())
            + nodes_action_ids(ns.push(n).drop_first()));
        assert(nodes_action_ids(ns.push(n)) =~= nodes_action_ids(ns) + node_action_ids(n));
    } else {
        assert(ns.push(n).drop_first() =~= ns.drop_first().push(n));
        lemma_ids_push(ns.drop_first(), n);
        assert(nodes_action_ids(ns.push(n)) =~= nodes_action_ids(ns) + node_action_ids(n));
    }
}

proof fn lemma_wf_push(ns: Seq<MenuNode>, n: MenuNode)
    ensures
        nodes_wf(ns.push(n)) == (nodes_wf(ns) && node_wf(n)),
    decreases ns.len(),
{
    if ns.len() == 0 {
        assert(ns.push(n).drop_first() =~= Seq::<MenuNode>::empty());
        assert(ns.push(n).first() == n);
        assert(nodes_wf(ns.push(n)) == (node_wf(ns.push(n).first()) && nodes_wf(
            ns.push(n).drop_first(),
        )));
    } else {
        assert(ns.push(n).drop_first() =~= ns.drop_first().push(n));
        assert(ns.push(n).first() == ns.first());
        lemma_wf_push(ns.drop_first(), n);
        assert(nodes_wf(ns.push(n)) == (node_wf(ns.push(n).first()) && nodes_wf(
            ns.push(n).drop_first(),
        )));
    }
}

/// Accumulates one submenu's ordered children and the action identifiers they
/// expose, in order.
pub struct SubmenuBuilder {
    pub label: String,
    pub children: Vec<MenuNode>,
    pub ids: Vec<ActionId>,
}

impl SubmenuBuilder {
    /// The builder's bookkeeping: `ids` are exactly the action identifiers of
    /// `children`, in order, and the children are well formed.
    pub open spec fn wf(self) -> bool {
        self.ids@ == nodes_action_ids(self.children@) && nodes_wf(self.children@)
    }

    /// An empty submenu under the given label.
    pub fn new(label: &str) -> (b: Self)
        ensures
            b.wf(),
            b.label@ == label@,
            b.children@ == Seq::<MenuNode>::empty(),
            b.ids@ == Seq::<ActionId>::empty(),
    {
        SubmenuBuilder { label: label.to_owned(), children: Vec::new(), ids: Vec::new() }
    }

    /// Appends a custom action leaf with identifier `id` and display text
    /// `label`.
    pub fn action(self, id: ActionId, label: &str) -> (b: Self)
        requires
            self.wf(),
        ensures
            b.wf(),
            b.label == self.label,
            b.ids@ == self.ids@.push(id),
            b.children@.len() == self.children@.len() + 1,
    {
        let node = MenuNode::Action { id, label: label.to_owned() };
        proof {
            lemma_ids_push(self.children@, node);
            lemma_wf_push(self.children@, node);
            assert(node_action_ids(node) =~= seq![id]);
            assert(nodes_action_ids(self.children@.push(node)) =~= self.ids@.push(id));
        }
        let mut children = self.children;
        children.push(node);
        let mut ids = self.ids;
        ids.push(id);
        SubmenuBuilder { label: self.label, children, ids }
    }

    /// Appends a separator: pure visual grouping, no identifier.
    pub fn separator(self) -> (b: Self)
        requires
            self.wf(),
        ensures
            b.wf(),
            b.label == self.label,
            b.ids@ == self.ids@,
            b.children@.len() == self.children@.len() + 1,
    {
        let node = MenuNode::Separator;
        proof {
            lemma_ids_push(self.children@, node);
            lemma_wf_push(self.children@, node);
            assert(node_action_ids(node) =~= Seq::<ActionId>::empty());
            assert(nodes_action_ids(self.children@.push(node)) =~= self.ids@);
        }
        let mut children = self.children;
        children.push(node);
        SubmenuBuilder { label: self.label, children, ids: self.ids }
    }

    /// Appends a leaf whose behavior the host platform supplies.
    pub fn predefined(self, kind: PredefinedKind) -> (b: Self)
        requires
            self.wf(),
        ensures
            b.wf(),
            b.label == self.label,
            b.ids@ == self.ids@,
            b.children@.len() == self.children@.len() + 1,
    {
        let node = MenuNode::Predefined { kind };
        proof {
            lemma_ids_push(self.children@, node);
            lemma_wf_push(self.children@, node);
            assert(node_action_ids(node) =~= Seq::<ActionId>::empty());
            assert(nodes_action_ids(self.children@.push(node)) =~= self.ids@);
        }
        let mut children = self.children;
        children.push(node);
        SubmenuBuilder { label: self.label, children, ids: self.ids }
    }

    /// Nests a finished submenu: its action identifiers follow, in order,
    /// those already accumulated.
    pub fn submenu(self, sub: SubmenuBuilder) -> (b: Self)
        requires
            self.wf(),
            sub.wf(),
            sub.children@.len() > 0,
        ensures
            b.wf(),
            b.label == self.label,
            b.ids@ == self.ids@ + sub.ids@,
            b.children@.len() == self.children@.len() + 1,
    {
        let node = MenuNode::Submenu { label: sub.label, children: sub.children };
        proof {
            lemma_ids_push(self.children@, node);
            lemma_wf_push(self.children@, node);
            assert(node_action_ids(node) =~= sub.ids@);
            assert(nodes_action_ids(self.children@.push(node)) =~= self.ids@ + sub.ids@);
        }
        let mut children = self.children;
        children.push(node);
        let mut ids = self.ids;
        let sub_ids = sub.ids;
        let ghost ids0 = ids@;
        let mut k: usize = 0;
        while k < sub_ids.len()
            invariant
                k <= sub_ids.len(),
                ids@ == ids0 + sub_ids@.take(k as int),
            decreases sub_ids.len() - k,
        {
            ids.push(sub_ids[k]);
            proof {
                assert(ids0 + sub_ids@.take(k as int + 1) =~= (ids0 + sub_ids@.take(k as int)).push(
                    sub_ids@[k as int],
                ));
            }
            k += 1;
        }
        proof {
            assert(sub_ids@.take(sub_ids@.len() as int) =~= sub_ids@);
        }
        SubmenuBuilder { label: self.label, children, ids }
    }
}

/// The immutable menu: the top-level submenus, in order, and the flat
/// catalogue of action identifiers they expose.
pub struct Menu {
    pub items: Vec<MenuNode>,
    pub action_ids: Vec<ActionId>,
}

impl Menu {
    /// The menu's invariant: `action_ids` are exactly the identifiers of the
    /// tree, in order, and the tree is well formed.
    pub open spec fn wf(self) -> bool {
        self.action_ids@ == nodes_action_ids(self.items@) && nodes_wf(self.items@)
    }

    /// Whether `id` is an action of this menu.
    pub fn contains_action(&self, id: ActionId) -> (r: bool)
        ensures
            r == self.action_ids@.contains(id),
    {
        let mut k: usize = 0;
        while k < self.action_ids.len()
            invariant
                k <= self.action_ids.len(),
                forall|i: int| 0 <= i < k ==> self.action_ids@[i] != id,
            decreases self.action_ids.len() - k,
        {
            if self.action_ids[k] == id {
                return true;
            }
            k += 1;
        }
        false
    }
}

/// Accumulates the top-level submenus of the menu, in order.
pub struct MenuBuilder {
    pub submenus: Vec<MenuNode>,
    pub ids: Vec<ActionId>,
}

impl MenuBuilder {
    /// The builder's bookkeeping: `ids` are exactly the identifiers of the
    /// accumulated submenus, in order, and all of them are well formed.
    pub open spec fn wf(self) -> bool {
        self.ids@ == nodes_action_ids(self.submenus@) && nodes_wf(self.submenus@)
    }

    /// An empty top-level menu.
    pub fn new() -> (b: Self)
        ensures
            b.wf(),
            b.submenus@ == Seq::<MenuNode>::empty(),
            b.ids@ == Seq::<ActionId>::empty(),
    {
        MenuBuilder { submenus: Vec::new(), ids: Vec::new() }
    }

    /// Appends one finished top-level submenu.
    pub fn submenu(self, sub: SubmenuBuilder) -> (b: Self)
        requires
            self.wf(),
            sub.wf(),
            sub.children@.len() > 0,
        ensures
            b.wf(),
            b.ids@ == self.ids@ + sub.ids@,
            b.submenus@.len() == self.submenus@.len() + 1,
            b.submenus@.drop_last() == self.submenus@,
            is_submenu_labeled(b.submenus@.last(), sub.label@),
    {
        let node = MenuNode::Submenu { label: sub.label, children: sub.children };
        proof {
            lemma_ids_push(self.submenus@, node);
            lemma_wf_push(self.submenus@, node);
            assert(node_action_ids(node) =~= sub.ids@);
            assert(nodes_action_ids(self.submenus@.push(node)) =~= self.ids@ + sub.ids@);
        }
        let mut submenus = self.submenus;
        submenus.push(node);
        proof {
            assert(submenus@.drop_last() =~= self.submenus@);
        }
        let mut ids = self.ids;
        let sub_ids = sub.ids;
        let ghost ids0 = ids@;
        let mut k: usize = 0;
        while k < sub_ids.len()
            invariant
                k <= sub_ids.len(),
                ids@ == ids0 + sub_ids@.take(k as int),
            decreases sub_ids.len() - k,
        {
            ids.push(sub_ids[k]);
            proof {
                assert(ids0 + sub_ids@.take(k as int + 1) =~= (ids0 + sub_ids@.take(k as int)).push(
                    sub_ids@[k as int],
                ));
            }
            k += 1;
        }
        proof {
            assert(sub_ids@.take(sub_ids@.len() as int) =~= sub_ids@);
        }
        MenuBuilder { submenus, ids }
    }

    /// Finishes the menu.
    pub fn build(self) -> (m: Menu)
        requires
            self.wf(),
        ensures
            m.wf(),
            m.items@ == self.submenus@,
            m.action_ids@ == self.ids@,
    {
        Menu { items: self.submenus, action_ids: self.ids }
    }
}


/// Declares the application's full menu: six top-level submenus in fixed
/// order. The action identifiers it exposes are exactly the catalogue, in
/// order, each exactly once.
#[verifier::rlimit(100)]
pub fn build_menu() -> (m: Menu)
    ensures
        m.wf(),
        m.action_ids@ == action_catalogue(),
        m.items@.len() == 6,
        is_submenu_labeled(m.items@[0], "BuildPCBs AI"@),
        is_submenu_labeled(m.items@[1], "File"@),
        is_submenu_labeled(m.items@[2], "Edit"@),
        is_submenu_labeled(m.items@[3], "View"@),
        is_submenu_labeled(m.items@[4], "Window"@),
        is_submenu_labeled(m.items@[5], "Help"@),
{
    let app_menu = SubmenuBuilder::new("BuildPCBs AI")
        .predefined(PredefinedKind::About)
        .separator()
        .action(ActionId::Preferences, "Preferences...")
        .separator()
        .predefined(PredefinedKind::Services)
        .separator()
        .predefined(PredefinedKind::Hide)
        .predefined(PredefinedKind::HideOthers)
        .predefined(PredefinedKind::ShowAll)
        .separator()
        .predefined(PredefinedKind::Quit);

    let export_menu = SubmenuBuilder::new("Export")
        .action(ActionId::ExportStl, "Export as STL...")
        .action(ActionId::ExportStep, "Export as STEP...")
        .action(ActionId::ExportPdf, "Export as PDF...");

    let file_menu = SubmenuBuilder::new("File")
        .action(ActionId::New, "New Project")
        .action(ActionId::Open, "Open...")
        .separator()
        .action(ActionId::Save, "Save")
        .action(ActionId::SaveAs, "Save As...")
        .separator()
        .submenu(export_menu)
        .separator()
        .predefined(PredefinedKind::CloseWindow);

    let edit_menu = SubmenuBuilder::new("Edit")
        .predefined(PredefinedKind::Undo)
        .predefined(PredefinedKind::Redo)
        .separator()
        .predefined(PredefinedKind::Cut)
        .predefined(PredefinedKind::Copy)
        .predefined(PredefinedKind::Paste)
        .predefined(PredefinedKind::SelectAll);

    let camera_menu = SubmenuBuilder::new("Camera")
        .action(ActionId::CameraTop, "Top View")
        .action(ActionId::CameraFront, "Front View")
        .action(ActionId::CameraSide, "Side View")
        .action(ActionId::CameraIso, "Isometric View");

    let view_menu = SubmenuBuilder::new("View")
        .action(ActionId::ToggleProperties, "Toggle Properties Panel")
        .action(ActionId::ToggleTerminal, "Toggle Terminal")
        .separator()
        .submenu(camera_menu)
        .separator()
        .action(ActionId::ToggleGrid, "Toggle Grid")
        .action(ActionId::ToggleExploded, "Toggle Exploded View")
        .action(ActionId::ToggleClipping, "Toggle Clipping Plane")
        .separator()
        .action(ActionId::Fullscreen, "Enter Full Screen");

    let window_menu = SubmenuBuilder::new("Window")
        .predefined(PredefinedKind::Minimize)
        .predefined(PredefinedKind::Maximize)
        .separator()
        .predefined(PredefinedKind::CloseWindow);

    let help_menu = SubmenuBuilder::new("Help")
        .action(ActionId::Documentation, "Documentation")
        .action(ActionId::Shortcuts, "Keyboard Shortcuts");

    let m = MenuBuilder::new()
        .submenu(app_menu)
        .submenu(file_menu)
        .submenu(edit_menu)
        .submenu(view_menu)
        .submenu(window_menu)
        .submenu(help_menu)
        .build();
    proof {
        assert(m.action_ids@ =~= action_catalogue());
    }
    m
}


/// Completeness of the built menu: a menu whose identifiers are the catalogue
/// offers every action of the closed set, so every activation the frontend
/// can name reaches an action of the menu.
pub proof fn lemma_catalogue_menu_offers_every_action(m: Menu, a: ActionId)
    requires
        m.action_ids@ == action_catalogue(),
    ensures
        m.action_ids@.contains(a),
{
    crate::actions::lemma_catalogue_exact();
}

} // verus!
