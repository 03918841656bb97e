//! The UI builder and dispatcher: registration order, draw-time (live)
//! resolution of spec tables, defaults for malformed specs, and script
//! callbacks.

use std::cell::RefCell;
use std::rc::Rc;

use flexar::plugin::LoadResult;
use flexar::plugin::Plugin;
use flexar::plugin::SourceRead;
use flexar::plugin_ui::apply_text_default;
use flexar::plugin_ui::PluginUI;
use flexar::plugin_ui::WidgetKind;
use flexar::records::LogBuffer;
use flexar::records::LogKind;

fn builder_bridge<'l>(lua: &'l mlua::Lua, ui: Rc<RefCell<PluginUI>>) -> mlua::Table<'l> {
    let t = lua.create_table().unwrap();
    let u = ui.clone();
    t.set(
        "label",
        lua.create_function(move |l, (_this, spec): (mlua::Table, mlua::Table)| {
            u.borrow_mut().label(l, spec).map_err(mlua::Error::RuntimeError)
        })
        .unwrap(),
    )
    .unwrap();
    let u = ui.clone();
    t.set(
        "button",
        lua.create_function(move |l, (_this, spec): (mlua::Table, mlua::Table)| {
            u.borrow_mut().button(l, spec).map_err(mlua::Error::RuntimeError)
        })
        .unwrap(),
    )
    .unwrap();
    let u = ui.clone();
    t.set(
        "collapsing",
        lua.create_function(move |l, (_this, spec): (mlua::Table, mlua::Table)| {
            u.borrow_mut().collapsing(l, spec).map_err(mlua::Error::RuntimeError)
        })
        .unwrap(),
    )
    .unwrap();
    t
}

#[test]
fn registrations_draw_in_order() {
    let lua = mlua::Lua::new();
    let mut ui = PluginUI::new();
    assert_eq!(ui.widget_count(), 0);

    let mk = |text: &str| {
        let t = lua.create_table().unwrap();
        t.set("text", text).unwrap();
        t
    };
    ui.label(&lua, mk("one")).unwrap();
    ui.button(&lua, mk("two")).unwrap();
    ui.collapsing(&lua, mk("three")).unwrap();
    ui.label(&lua, mk("four")).unwrap();

    let plan = ui.draw_plan(&lua);
    assert_eq!(plan.len(), 4);
    assert_eq!(plan[0].kind, WidgetKind::Label);
    assert_eq!(plan[1].kind, WidgetKind::Button);
    assert_eq!(plan[2].kind, WidgetKind::Collapsing);
    assert_eq!(plan[3].kind, WidgetKind::Label);
    assert_eq!(plan[0].text, "one");
    assert_eq!(plan[1].text, "two");
    assert_eq!(plan[2].text, "three");
    assert_eq!(plan[3].text, "four");
}

#[test]
fn label_spec_mutation_visible_at_draw() {
    let lua = mlua::Lua::new();
    let mut ui = PluginUI::new();

    let spec = lua.create_table().unwrap();
    spec.set("text", "Before").unwrap();
    ui.label(&lua, spec.clone()).unwrap();
    assert_eq!(ui.widget_text(&lua, 0), "Before");

    // The descriptor holds a reference, not a snapshot: mutating the spec
    // after registration but before drawing changes the rendered text.
    spec.set("text", "After").unwrap();
    assert_eq!(ui.widget_text(&lua, 0), "After");
    let plan = ui.draw_plan(&lua);
    assert_eq!(plan[0].text, "After");
}

#[test]
fn malformed_specs_fall_back_to_defaults() {
    let lua = mlua::Lua::new();
    let mut ui = PluginUI::new();

    // No `text` field at all.
    ui.label(&lua, lua.create_table().unwrap()).unwrap();
    // A `text` field that is not a string.
    let odd = lua.create_table().unwrap();
    odd.set("text", true).unwrap();
    ui.button(&lua, odd).unwrap();
    ui.collapsing(&lua, lua.create_table().unwrap()).unwrap();

    assert_eq!(ui.widget_text(&lua, 0), "label");
    assert_eq!(ui.widget_text(&lua, 1), "Button");
    assert_eq!(ui.widget_text(&lua, 2), "Collapsing");
}

#[test]
fn text_default_applies_only_when_absent() {
    assert_eq!(apply_text_default(WidgetKind::Label, None), "label");
    assert_eq!(apply_text_default(WidgetKind::Button, None), "Button");
    assert_eq!(apply_text_default(WidgetKind::Collapsing, None), "Collapsing");
    assert_eq!(
        apply_text_default(WidgetKind::Label, Some("given".to_string())),
        "given"
    );
}

#[test]
fn demo_plugin_first_frame() {
    let mut plugin = Plugin::new();
    let mut log = LogBuffer::new();
    let sink = Rc::new(RefCell::new(LogBuffer::new()));

    let src = "count = 0\nfunction increment()\n    count = count + 1\nend\n\
               function draw(pui)\n    pui:label({text=\"Hello\"})\n    \
               pui:button({text=\"Go\", cb=increment})\nend\n";
    let r = plugin.load(
        Some("demo".to_string()),
        SourceRead::Found(src.to_string()),
        &mut log,
        &sink,
    );
    assert_eq!(r, LoadResult::Loaded);

    let lua = plugin.session().unwrap();
    let ui = Rc::new(RefCell::new(PluginUI::new()));
    let bridge = builder_bridge(lua, ui.clone());
    let draw: mlua::Function = lua.globals().get("draw").unwrap();
    draw.call::<_, ()>(bridge).unwrap();

    let ui = ui.borrow();
    let plan = ui.draw_plan(lua);
    assert_eq!(plan.len(), 2);
    assert_eq!(plan[0].kind, WidgetKind::Label);
    assert_eq!(plan[0].text, "Hello");
    assert_eq!(plan[1].kind, WidgetKind::Button);
    assert_eq!(plan[1].text, "Go");

    // Rendering alone leaves the log untouched.
    assert_eq!(log.len(), 0);

    // Clicking the button invokes `increment` synchronously.
    let ran = ui.invoke_callback(lua, 1, &mut log);
    assert!(ran);
    let count: i64 = lua.globals().get("count").unwrap();
    assert_eq!(count, 1);
    assert_eq!(log.len(), 0);
}

#[test]
fn nested_collapsing_repopulates_child_each_expansion() {
    let mut plugin = Plugin::new();
    let mut log = LogBuffer::new();
    let sink = Rc::new(RefCell::new(LogBuffer::new()));

    let src = "function draw(pui)\n    pui:collapsing({text=\"More\", \
               cb=function(child)\n        child:label({text=\"Nested\"})\n        \
               return child\n    end})\nend\n";
    plugin.load(
        Some("nested".to_string()),
        SourceRead::Found(src.to_string()),
        &mut log,
        &sink,
    );

    let lua = plugin.session().unwrap();
    let ui = Rc::new(RefCell::new(PluginUI::new()));
    let bridge = builder_bridge(lua, ui.clone());
    let draw: mlua::Function = lua.globals().get("draw").unwrap();
    draw.call::<_, ()>(bridge).unwrap();

    let ui = ui.borrow();
    assert_eq!(ui.widget_count(), 1);
    assert_eq!(ui.widget_kind(0), WidgetKind::Collapsing);
    assert_eq!(ui.widget_text(&lua, 0), "More");

    // Expanding the section invokes `cb` with a fresh, empty child builder;
    // collapsing and re-expanding re-invokes it each time — the child is
    // never cached across passes.
    for _ in 0..2 {
        let child = Rc::new(RefCell::new(PluginUI::new()));
        let spec: mlua::Table = lua.registry_value(ui.widget_slot(0)).unwrap();
        let cb: mlua::Function = spec.get("cb").unwrap();
        let child_bridge = builder_bridge(lua, child.clone());
        cb.call::<_, mlua::Value>(child_bridge).unwrap();

        let child = child.borrow();
        assert_eq!(child.widget_count(), 1);
        assert_eq!(child.widget_kind(0), WidgetKind::Label);
        assert_eq!(child.widget_text(lua, 0), "Nested");
    }
}

#[test]
fn failing_callback_logs_and_affects_nothing_else() {
    let lua = mlua::Lua::new();
    let mut log = LogBuffer::new();
    let mut ui = PluginUI::new();

    let bad: mlua::Function = lua
        .load("return function() error(\"cb failed\") end")
        .eval()
        .unwrap();
    let spec = lua.create_table().unwrap();
    spec.set("text", "Go").unwrap();
    spec.set("cb", bad).unwrap();
    ui.button(&lua, spec).unwrap();

    let ran = ui.invoke_callback(&lua, 0, &mut log);
    assert!(!ran);
    assert_eq!(log.len(), 1);
    assert_eq!(log.record_at(0).kind, LogKind::HookInvocationError);

    // The widget is still there and still renders.
    assert_eq!(ui.widget_count(), 1);
    assert_eq!(ui.widget_text(&lua, 0), "Go");
}

#[test]
fn widget_without_callback_is_inert() {
    let lua = mlua::Lua::new();
    let mut log = LogBuffer::new();
    let mut ui = PluginUI::new();

    let spec = lua.create_table().unwrap();
    spec.set("text", "Quiet").unwrap();
    ui.button(&lua, spec).unwrap();

    let ran = ui.invoke_callback(&lua, 0, &mut log);
    assert!(!ran);
    assert_eq!(log.len(), 0);
}
