//! The per-frame UI builder and the dispatch order it fixes.
//!
//! A script's `draw` hook registers widgets on a fresh builder each frame.
//! A registration stores a descriptor: the widget's kind and a registry key
//! to the script's own spec table — a reference, not a copy, so the text
//! and callback a descriptor resolves to are read at draw time ("live
//! binding"). The dispatcher walks the descriptors in registration order.

use vstd::prelude::*;

use crate::engine;
use crate::plugin::call_script_function;
use crate::records::LogBuffer;
use crate::records::LogKind;

verus! {

/// The closed set of widget kinds a script can register.
#[derive(Clone, Copy, PartialEq, Eq, Structural, Debug)]
pub enum WidgetKind {
    Label,
    Button,
    Collapsing,
}

/// One registered widget descriptor: its kind, and the session registry
/// key of the script table that was passed to the registration call.
pub struct Widget {
    pub kind: WidgetKind,
    pub slot: mlua::RegistryKey,
}

/// A per-frame builder: an ordered sequence of widget descriptors,
/// insertion order being draw order. Created empty each frame; never kept
/// across frames.
pub struct PluginUI {
    widgets: Vec<Widget>,
}

/// One entry of a frame's render plan: the widget's kind and the text it
/// resolves to at draw time.
pub struct RenderItem {
    pub kind: WidgetKind,
    pub text: String,
}

/// The dispatch order of a descriptor sequence: the kinds, in registration
/// order.
pub open spec fn kinds_of(s: Seq<Widget>) -> Seq<WidgetKind> {
    s.map_values(|w: Widget| w.kind)
}

/// The text a widget kind falls back to when its spec table offers none.
pub open spec fn default_text(kind: WidgetKind) -> Seq<char> {
    match kind {
        WidgetKind::Label => "label"@,
        WidgetKind::Button => "Button"@,
        WidgetKind::Collapsing => "Collapsing"@,
    }
}

impl View for PluginUI {
    type V = Seq<Widget>;

    closed spec fn view(&self) -> Seq<Widget> {
        self.widgets@
    }
}

impl PluginUI {
    /// A fresh builder with no registered widgets.
    pub fn new() -> (r: PluginUI)
        ensures
            r@ == Seq::<Widget>::empty(),
    {
        PluginUI { widgets: Vec::new() }
    }

    /// Registers one widget of the given kind backed by the given script
    /// table: stores the table by reference in the session registry and
    /// appends the descriptor after everything registered so far.
    fn register<'lua>(
        &mut self,
        lua: &'lua mlua::Lua,
        kind: WidgetKind,
        table: mlua::Table<'lua>,
    ) -> (r: Result<(), String>)
        ensures
            r is Ok ==> final(self)@.len() == old(self)@.len() + 1
                && final(self)@.drop_last() == old(self)@
                && final(self)@.last().kind == kind,
            r is Err ==> final(self)@ == old(self)@,
    {
        match engine::registry_slot(lua, table) {
            Ok(slot) => {
                let ghost pre = self.widgets@;
                self.widgets.push(Widget { kind, slot });
                proof {
                    assert(self.widgets@.drop_last() == pre);
                }
                Ok(())
            },
            Err(e) => Err(engine::format_error(&e)),
        }
    }

    /// Registers a static-text widget.
    pub fn label<'lua>(&mut self, lua: &'lua mlua::Lua, table: mlua::Table<'lua>) -> (r: Result<
        (),
        String,
    >)
        ensures
            r is Ok ==> final(self)@.len() == old(self)@.len() + 1
                && final(self)@.drop_last() == old(self)@
                && final(self)@.last().kind == WidgetKind::Label,
            r is Err ==> final(self)@ == old(self)@,
    {
        self.register(lua, WidgetKind::Label, table)
    }

    /// Registers a clickable widget; its `cb` field, if any, is invoked on
    /// activation.
    pub fn button<'lua>(&mut self, lua: &'lua mlua::Lua, table: mlua::Table<'lua>) -> (r: Result<
        (),
        String,
    >)
        ensures
            r is Ok ==> final(self)@.len() == old(self)@.len() + 1
                && final(self)@.drop_last() == old(self)@
                && final(self)@.last().kind == WidgetKind::Button,
            r is Err ==> final(self)@ == old(self)@,
    {
        self.register(lua, WidgetKind::Button, table)
    }

    /// Registers a collapsible section; its `cb` field, if any, populates
    /// a fresh child builder each time the section is expanded.
    pub fn collapsing<'lua>(&mut self, lua: &'lua mlua::Lua, table: mlua::Table<'lua>) -> (r:
        Result<(), String>)
        ensures
            r is Ok ==> final(self)@.len() == old(self)@.len() + 1
                && final(self)@.drop_last() == old(self)@
                && final(self)@.last().kind == WidgetKind::Collapsing,
            r is Err ==> final(self)@ == old(self)@,
    {
        self.register(lua, WidgetKind::Collapsing, table)
    }

    pub fn widget_count(&self) -> (n: usize)
        ensures
            n == self@.len(),
    {
        self.widgets.len()
    }

    pub fn widget_kind(&self, i: usize) -> (k: WidgetKind)
        requires
            i < self@.len(),
        ensures
            k == self@[i as int].kind,
    {
        self.widgets[i].kind
    }

    pub fn widget_slot(&self, i: usize) -> (s: &mlua::RegistryKey)
        requires
            i < self@.len(),
        ensures
            *s == self@[i as int].slot,
    {
        &self.widgets[i].slot
    }

    /// The text widget `i` renders with, read from its spec table at draw
    /// time: the table's current `text` field, or the kind's default when
    /// the field is absent or not a string.
    pub fn widget_text<'lua>(&self, lua: &'lua mlua::Lua, i: usize) -> (t: String)
        requires
            i < self@.len(),
    {
        let found = match engine::resolve_slot_table(lua, &self.widgets[i].slot) {
            Some(table) => engine::table_text_field(&table, "text"),
            None => None,
        };
        apply_text_default(self.widgets[i].kind, found)
    }

    /// The frame's render plan, in registration order: the dispatcher
    /// draws exactly these kinds, each with its live-resolved text.
    pub fn draw_plan<'lua>(&self, lua: &'lua mlua::Lua) -> (plan: Vec<RenderItem>)
        ensures
            plan@.map_values(|it: RenderItem| it.kind) == kinds_of(self@),
    {
        let mut plan: Vec<RenderItem> = Vec::new();
        let n = self.widgets.len();
        for i in 0..n
            invariant
                n == self@.len(),
                plan@.len() == i,
                forall|j: int| 0 <= j < i ==> plan@[j].kind == self@[j].kind,
        {
            let kind = self.widget_kind(i);
            let text = self.widget_text(lua, i);
            plan.push(RenderItem { kind, text });
        }
        proof {
            assert(plan@.map_values(|it: RenderItem| it.kind) =~= kinds_of(self@));
        }
        plan
    }

    /// The function widget `i`'s spec table currently holds under `cb`,
    /// if any — resolved at activation time, like the text.
    pub fn widget_callback<'lua>(&self, lua: &'lua mlua::Lua, i: usize) -> (r: Option<
        mlua::Function<'lua>,
    >)
        requires
            i < self@.len(),
    {
        match engine::resolve_slot_table(lua, &self.widgets[i].slot) {
            Some(table) => engine::table_function_field(&table, "cb"),
            None => None,
        }
    }

    /// Invokes widget `i`'s `cb` callback with no arguments, as the
    /// dispatcher does when a button is activated. Returns whether a
    /// callback ran to completion; a raised error is logged as one
    /// `HookInvocationError` record and affects nothing else, and an
    /// absent callback leaves the log untouched (the contract of
    /// `call_script_function` pins both cases over the resolved option).
    pub fn invoke_callback<'lua>(
        &self,
        lua: &'lua mlua::Lua,
        i: usize,
        log: &mut LogBuffer,
    ) -> (r: bool)
        requires
            i < self@.len(),
        ensures
            final(log)@ == old(log)@ || (!r && final(log)@ == old(log)@.push(final(log)@.last())
                && final(log)@.last().kind == LogKind::HookInvocationError),
            r ==> final(log)@ == old(log)@,
    {
        call_script_function(self.widget_callback(lua, i), log)
    }
}

/// The spec-table text as the dispatcher uses it: the field's value when
/// the table offered a string, and the registering kind's documented
/// default otherwise. A malformed spec is recovered here, never surfaced
/// as a failure.
pub fn apply_text_default(kind: WidgetKind, found: Option<String>) -> (r: String)
    ensures
        found matches Some(s) ==> r@ == s@,
        found is None ==> r@ == default_text(kind),
{
    match found {
        Some(s) => s,
        None => match kind {
            WidgetKind::Label => "label".to_owned(),
            WidgetKind::Button => "Button".to_owned(),
            WidgetKind::Collapsing => "Collapsing".to_owned(),
        },
    }
}

/// Law: a registration extends the dispatch order by exactly the
/// registered kind — so, by induction over the registrations a single
/// `draw` invocation makes, the dispatcher renders them in exactly the
/// order they were registered.
pub proof fn lemma_registration_extends_order(pre: Seq<Widget>, post: Seq<Widget>, k: WidgetKind)
    requires
        post.len() == pre.len() + 1,
        post.drop_last() == pre,
        post.last().kind == k,
    ensures
        kinds_of(post) == kinds_of(pre).push(k),
{
    assert(kinds_of(post) =~= kinds_of(pre).push(k));
}

} // verus!
