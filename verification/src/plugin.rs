//! The plugin lifecycle: loading a named plugin into a fresh, isolated
//! script session, and the per-frame fail-safe around its `draw` hook.
//!
//! Loading runs the full sequence every time, from a clean session: build
//! the session with a restricted standard library, install the host bridge
//! (`print`), execute the plugin's source as one top-level chunk, then call
//! its `load` hook if it defined one. Every error along the way is logged
//! and the sequence continues; nothing here panics or aborts the host.
//! A failed per-frame draw call unloads the plugin, reverting to the same
//! no-plugin state that loading `None` yields.

use vstd::prelude::*;

use std::cell::RefCell;
use std::rc::Rc;

use crate::engine;
use crate::records::LogBuffer;
use crate::records::LogKind;
use crate::records::LogRecord;

verus! {

/// The outcome of reading a plugin's source file, handed in by the caller
/// that did the reading: the UTF-8 text, or the read error's description.
pub enum SourceRead {
    Found(String),
    Missing(String),
}

/// What `load` was asked to do and did: tear down to the no-plugin state,
/// or set up a session for the named plugin.
#[derive(Clone, Copy, PartialEq, Eq, Structural, Debug)]
pub enum LoadResult {
    NoPlugin,
    Loaded,
}

/// Whether a frame's draw dispatch is to run: no session is loaded (a
/// no-op), the session defines no `draw` hook (non-fatal; the frame notes
/// it and renders nothing), or the hook is to be invoked.
#[derive(Clone, Copy, PartialEq, Eq, Structural, Debug)]
pub enum DrawGate {
    NoSession,
    NoHook,
    Invoke,
}

/// How a frame's draw dispatch went, as the host reports it back: no
/// session so nothing to do, a live session without a `draw` hook, the
/// hook completed, or it failed with the given error text.
pub enum FrameOutcome {
    Skipped,
    MissingHook,
    Drawn,
    Failed(String),
}

/// Appends one record of the given kind when a load-sequence step failed,
/// and nothing otherwise: an error never aborts the sequence, it only
/// leaves this record.
pub fn record_step_error(kind: LogKind, outcome: Result<(), mlua::Error>, log: &mut LogBuffer)
    ensures
        outcome is Ok ==> final(log)@ == old(log)@,
        outcome is Err ==> final(log)@ == old(log)@.push(final(log)@.last())
            && final(log)@.last().kind == kind,
{
    match outcome {
        Ok(()) => (),
        Err(e) => {
            let ghost pre = log@;
            log.append(kind, engine::format_error(&e));
            proof {
                assert(log@.drop_last() == pre);
            }
        },
    }
}

/// Calls a script-held function with no arguments, if one is there.
/// Absence is a no-op that leaves the log untouched; a raised error is
/// captured as exactly one `HookInvocationError` record. Returns whether a
/// function ran to completion.
pub fn call_script_function(f: Option<mlua::Function>, log: &mut LogBuffer) -> (r: bool)
    ensures
        f is None ==> !r && final(log)@ == old(log)@,
        f is Some ==> ((r && final(log)@ == old(log)@) || (!r && final(log)@ == old(log)@.push(
            final(log)@.last(),
        ) && final(log)@.last().kind == LogKind::HookInvocationError)),
{
    match f {
        Some(func) => match engine::call_function_no_args(&func) {
            Ok(()) => true,
            Err(e) => {
                let ghost pre = log@;
                log.append(LogKind::HookInvocationError, engine::format_error(&e));
                proof {
                    assert(log@.drop_last() == pre);
                }
                false
            },
        },
        None => false,
    }
}

/// A named plugin and the script session that owns all its script-side
/// values. At most one session is live per plugin; re-loading or unloading
/// discards the previous session entirely, and every registry key handed
/// out for it with it.
pub struct Plugin {
    name: String,
    lua: Option<mlua::Lua>,
    src: String,
}

impl Plugin {
    /// Whether a script session is live.
    pub closed spec fn loaded(&self) -> bool {
        self.lua is Some
    }

    /// The loaded plugin's name.
    pub closed spec fn plugin_name(&self) -> Seq<char> {
        self.name@
    }

    /// The loaded plugin's source text.
    pub closed spec fn source_text(&self) -> Seq<char> {
        self.src@
    }

    /// The no-plugin state: no session, no name, no source.
    pub open spec fn is_unloaded(&self) -> bool {
        &&& !self.loaded()
        &&& self.plugin_name() == Seq::<char>::empty()
        &&& self.source_text() == Seq::<char>::empty()
    }

    /// A plugin in the no-plugin state.
    pub fn new() -> (r: Plugin)
        ensures
            r.is_unloaded(),
    {
        Plugin { name: String::new(), lua: None, src: String::new() }
    }

    /// Loads the named plugin, or tears down to the no-plugin state when
    /// `name` is `None`.
    ///
    /// `source` is the outcome of reading `<plugin-root>/<name>/plugin.lua`
    /// (the caller does the reading); it is ignored when `name` is `None`.
    /// A missing source is logged as a `SourceReadError` and still yields a
    /// live session — one that merely defines no hooks. The `print` bridge
    /// writing to `sink` is installed before the chunk runs; a chunk error
    /// is logged as `ScriptCompileError`; a `load` hook, if the chunk
    /// defined one, is called with no arguments, and a raised error is
    /// logged as `HookInvocationError`. Absence of the hook is a no-op.
    pub fn load(
        &mut self,
        name: Option<String>,
        source: SourceRead,
        log: &mut LogBuffer,
        sink: &Rc<RefCell<LogBuffer>>,
    ) -> (r: LoadResult)
        ensures
            old(log)@.is_prefix_of(final(log)@),
            name is None ==> final(self).is_unloaded() && final(log)@ == old(log)@ && r
                == LoadResult::NoPlugin,
            name matches Some(n) ==> {
                &&& r == LoadResult::Loaded
                &&& final(self).loaded()
                &&& final(self).plugin_name() == n@
            },
            name is Some ==> (source matches SourceRead::Found(s) ==> final(self).source_text()
                == s@ && (forall|i: int|
                old(log)@.len() <= i < final(log)@.len() ==> final(log)@[i].kind
                    != LogKind::SourceReadError)),
            name is Some ==> (source matches SourceRead::Missing(e) ==> final(self).source_text()
                == Seq::<char>::empty() && final(log)@.len() > old(log)@.len() && final(log)@[old(
                log,
            )@.len() as int] == (LogRecord { kind: LogKind::SourceReadError, message: e }) && (
            forall|i: int|
                old(log)@.len() < i < final(log)@.len() ==> final(log)@[i].kind
                    != LogKind::SourceReadError)),
            forall|i: int|
                old(log)@.len() <= i < final(log)@.len() ==> (final(log)@[i].kind
                    == LogKind::SourceReadError || final(log)@[i].kind
                    == LogKind::BridgeInstallError || final(log)@[i].kind
                    == LogKind::ScriptCompileError || final(log)@[i].kind
                    == LogKind::HookInvocationError),
    {
        let sname = match name {
            Some(n) => n,
            None => {
                self.unload();
                return LoadResult::NoPlugin;
            },
        };
        let src = match source {
            SourceRead::Found(s) => s,
            SourceRead::Missing(e) => {
                log.append(LogKind::SourceReadError, e);
                String::new()
            },
        };

        let lua = engine::new_session();
        record_step_error(LogKind::BridgeInstallError, engine::install_print(&lua, sink), log);
        // The base library pre-defines a `load` global; clear it so the
        // hook lookup below sees only a function the plugin defined.
        record_step_error(LogKind::BridgeInstallError, engine::clear_global(&lua, "load"), log);
        record_step_error(LogKind::ScriptCompileError, engine::exec_chunk(&lua, src.as_str()), log);
        call_script_function(engine::get_global_function(&lua, "load"), log);

        self.name = sname;
        self.src = src;
        self.lua = Some(lua);
        LoadResult::Loaded
    }

    /// Tears down to the no-plugin state, discarding the session and with
    /// it every script-side value it owned.
    fn unload(&mut self)
        ensures
            final(self).is_unloaded(),
    {
        self.name = String::new();
        self.src = String::new();
        self.lua = None;
    }

    /// Whether a script session is live.
    pub fn is_loaded(&self) -> (r: bool)
        ensures
            r == self.loaded(),
    {
        self.lua.is_some()
    }

    /// The live session, if any, for the host to run the frame's draw
    /// dispatch against.
    pub fn session(&self) -> (r: Option<&mlua::Lua>)
        ensures
            r is Some <==> self.loaded(),
    {
        self.lua.as_ref()
    }

    /// The session's current `draw` hook: the function its globals hold
    /// under that name, if a session is live and the script defined one.
    pub fn draw_hook<'a>(&'a self) -> (r: Option<mlua::Function<'a>>)
        ensures
            !self.loaded() ==> r is None,
    {
        match &self.lua {
            None => None,
            Some(l) => engine::get_global_function(l, "draw"),
        }
    }

    /// Whether this frame is to invoke the `draw` hook: only when a
    /// session is live and its globals currently hold a `draw` function;
    /// both other cases are no-ops, not errors.
    pub fn call_draw_gate(&self) -> (r: DrawGate)
        ensures
            r == DrawGate::NoSession <==> !self.loaded(),
    {
        match &self.lua {
            None => DrawGate::NoSession,
            Some(l) => match engine::get_global_function(l, "draw") {
                Some(_) => DrawGate::Invoke,
                None => DrawGate::NoHook,
            },
        }
    }

    /// The per-frame fail-safe: a failed draw call appends exactly one
    /// `FrameRenderError` record and unloads the plugin, reverting to the
    /// no-plugin state. A live session without a `draw` hook is non-fatal:
    /// it is noted as exactly one `HookInvocationError` record and the
    /// session is retained. Any other outcome changes nothing.
    pub fn finish_frame(&mut self, outcome: FrameOutcome, log: &mut LogBuffer)
        ensures
            outcome matches FrameOutcome::Failed(m) ==> final(self).is_unloaded() && final(log)@
                == old(log)@.push(LogRecord { kind: LogKind::FrameRenderError, message: m }),
            outcome is MissingHook ==> *final(self) == *old(self) && final(log)@ == old(
                log,
            )@.push(final(log)@.last()) && final(log)@.last().kind
                == LogKind::HookInvocationError && final(log)@.last().message@
                == "the draw hook is not defined"@,
            outcome is Skipped || outcome is Drawn ==> *final(self) == *old(self) && final(log)@
                == old(log)@,
    {
        match outcome {
            FrameOutcome::Failed(m) => {
                log.append(LogKind::FrameRenderError, m);
                self.unload();
            },
            FrameOutcome::MissingHook => {
                let ghost pre = log@;
                log.append(
                    LogKind::HookInvocationError,
                    "the draw hook is not defined".to_owned(),
                );
                proof {
                    assert(log@.drop_last() == pre);
                }
            },
            _ => (),
        }
    }
}

/// Drains the shared script-output sink into the host log, appending its
/// records after everything already logged and leaving an empty buffer in
/// the sink. Called once per frame, after the draw dispatch.
pub fn drain_sink(sink: &Rc<RefCell<LogBuffer>>, log: &mut LogBuffer)
    ensures
        old(log)@.is_prefix_of(final(log)@),
{
    let mut taken = engine::swap_sink(sink, LogBuffer::new());
    let ghost pre = log@;
    log.extend_from(taken.drain());
    proof {
        assert(pre.is_prefix_of(log@));
    }
}

/// Law: the no-plugin state is one state — any two unloaded plugins agree
/// on every observable — so tearing down twice in succession (`load` with
/// `None`, twice) leaves exactly the state one tear-down leaves.
pub proof fn lemma_unload_idempotent(a: Plugin, b: Plugin)
    requires
        a.is_unloaded(),
        b.is_unloaded(),
    ensures
        a.loaded() == b.loaded(),
        a.plugin_name() == b.plugin_name(),
        a.source_text() == b.source_text(),
{
}

} // verus!
