use vstd::prelude::*;
use crate::clipboard::{Clipboard, ClipboardContent};
use crate::error::Error;
use crate::event::Event;
use crate::modes::{
    CommandMode, ConfirmMode, JumpMode, LineJumpMode, OpenMode, PathIndex, PathMode, SearchMode,
    SelectLineMode, SelectMode, SymbolJumpMode, ThemeMode,
};
use crate::preferences::{initialize_preferences, Preferences};
use crate::view::{render_error, Colors, StatusLineData, Style, Surface, Terminal};
use crate::workspace::{buffers_view, Buffer, BufferView, Workspace};
use vstd::string::StringExecFns;

verus! {

/// What the editor is currently doing: a closed set of mutually
/// exclusive variants, exactly one active at a time. Exit is absorbing —
/// once entered, the run loop stops at its next check and nothing is
/// processed afterwards.
pub enum Mode {
    Confirm(ConfirmMode),
    Command(CommandMode),
    Exit,
    Insert,
    Jump(JumpMode),
    LineJump(LineJumpMode),
    Path(PathMode),
    Normal,
    Open(OpenMode),
    Select(SelectMode),
    SelectLine(SelectLineMode),
    Search(SearchMode),
    SymbolJump(SymbolJumpMode),
    Theme(ThemeMode),
}

/// Marker for a discovered version-control repository. Discovery itself
/// — walking the directory tree for repository metadata — is the
/// version-control collaborator's work; the core only records whether a
/// repository was found, and absence is not an error.
pub struct Repository {}

/// Which external presenter is responsible for drawing a mode. The
/// searchable-list modes share one presenter; Exit draws nothing.
#[derive(Clone, Copy, PartialEq, Eq, Structural)]
pub enum PresenterKind {
    Confirm,
    SearchSelect,
    Insert,
    Search,
    Jump,
    LineJump,
    Path,
    Select,
    SelectLine,
    Normal,
}

/// The presenter a mode is drawn by, if it is drawn at all.
pub open spec fn presenter_spec(mode: Mode) -> Option<PresenterKind> {
    match mode {
        Mode::Confirm(_) => Option::Some(PresenterKind::Confirm),
        Mode::Command(_) => Option::Some(PresenterKind::SearchSelect),
        Mode::Insert => Option::Some(PresenterKind::Insert),
        Mode::Open(_) => Option::Some(PresenterKind::SearchSelect),
        Mode::Search(_) => Option::Some(PresenterKind::Search),
        Mode::Jump(_) => Option::Some(PresenterKind::Jump),
        Mode::LineJump(_) => Option::Some(PresenterKind::LineJump),
        Mode::Path(_) => Option::Some(PresenterKind::Path),
        Mode::SymbolJump(_) => Option::Some(PresenterKind::SearchSelect),
        Mode::Select(_) => Option::Some(PresenterKind::Select),
        Mode::SelectLine(_) => Option::Some(PresenterKind::SelectLine),
        Mode::Normal => Option::Some(PresenterKind::Normal),
        Mode::Theme(_) => Option::Some(PresenterKind::SearchSelect),
        Mode::Exit => Option::None,
    }
}

/// The presentation dispatch decision: which presenter must draw the
/// given mode. Handing that presenter the session and the surface is the
/// render step's next move; Exit selects no presenter and draws nothing.
pub fn presenter_for(mode: &Mode) -> (r: Option<PresenterKind>)
    ensures
        r == presenter_spec(*mode),
{
    match mode {
        Mode::Confirm(_) => Option::Some(PresenterKind::Confirm),
        Mode::Command(_) => Option::Some(PresenterKind::SearchSelect),
        Mode::Insert => Option::Some(PresenterKind::Insert),
        Mode::Open(_) => Option::Some(PresenterKind::SearchSelect),
        Mode::Search(_) => Option::Some(PresenterKind::Search),
        Mode::Jump(_) => Option::Some(PresenterKind::Jump),
        Mode::LineJump(_) => Option::Some(PresenterKind::LineJump),
        Mode::Path(_) => Option::Some(PresenterKind::Path),
        Mode::SymbolJump(_) => Option::Some(PresenterKind::SearchSelect),
        Mode::Select(_) => Option::Some(PresenterKind::Select),
        Mode::SelectLine(_) => Option::Some(PresenterKind::SelectLine),
        Mode::Normal => Option::Some(PresenterKind::Normal),
        Mode::Theme(_) => Option::Some(PresenterKind::SearchSelect),
        Mode::Exit => Option::None,
    }
}

/// The stable label of a mode, used by key-binding and status lookups.
/// The searchable modes answer differently while taking query input;
/// Exit has no label.
pub open spec fn mode_str_spec(mode: Mode) -> Option<Seq<char>> {
    match mode {
        Mode::Command(m) => if m.insert {
            Option::Some("search_select_insert"@)
        } else {
            Option::Some("search_select"@)
        },
        Mode::SymbolJump(m) => if m.insert {
            Option::Some("search_select_insert"@)
        } else {
            Option::Some("search_select"@)
        },
        Mode::Open(m) => if m.insert {
            Option::Some("search_select_insert"@)
        } else {
            Option::Some("search_select"@)
        },
        Mode::Theme(m) => if m.insert {
            Option::Some("search_select_insert"@)
        } else {
            Option::Some("search_select"@)
        },
        Mode::Normal => Option::Some("normal"@),
        Mode::Path(_) => Option::Some("path"@),
        Mode::Confirm(_) => Option::Some("confirm"@),
        Mode::Insert => Option::Some("insert"@),
        Mode::Jump(_) => Option::Some("jump"@),
        Mode::LineJump(_) => Option::Some("line_jump"@),
        Mode::Select(_) => Option::Some("select"@),
        Mode::SelectLine(_) => Option::Some("select_line"@),
        Mode::Search(m) => if m.insert {
            Option::Some("search_insert"@)
        } else {
            Option::Some("search"@)
        },
        Mode::Exit => Option::None,
    }
}

/// The terminal backend handle the rendering surface is built on. Which
/// concrete backend stands behind it (interactive or headless) is the
/// invoking shell's choice; the core only threads the handle through.
pub fn build_terminal() -> (r: Terminal)
    ensures
        r == (Terminal {}),
{
    Terminal {}
}

/// What the filesystem reports about one startup argument at bootstrap
/// time. Asking the filesystem is the invoking shell's step; every
/// decision taken on the answers is made — and verified — here.
pub enum PathKind {
    /// The argument names an existing directory; `canonical` is the
    /// directory's canonicalized path.
    Directory { canonical: String },
    /// The argument names an existing file; `canonical` is its
    /// canonicalized path and `content` its current text.
    File { canonical: String, content: String },
    /// The argument names nothing on disk; `absolute` says whether the
    /// raw token is an absolute path.
    Missing { absolute: bool },
}

/// One startup argument together with its filesystem classification.
pub struct PathArg {
    pub raw: String,
    pub kind: PathKind,
}

/// Whether the first path argument (the one after the executable name)
/// names an existing directory, and so names the session root instead of
/// a buffer.
pub open spec fn first_arg_is_dir(args: Seq<PathArg>) -> bool {
    args.len() >= 2 && args[1].kind is Directory
}

/// The session root a given argument list resolves to: the canonical
/// form of the first path argument when that names a directory, the
/// initial working directory otherwise.
pub open spec fn root_spec(args: Seq<PathArg>, initial_dir: Seq<char>) -> Seq<char> {
    if args.len() >= 2 {
        match args[1].kind {
            PathKind::Directory { canonical } => canonical@,
            _ => initial_dir,
        }
    } else {
        initial_dir
    }
}

/// A relative path made absolute against the session root.
pub open spec fn joined_path(root: Seq<char>, raw: Seq<char>) -> Seq<char> {
    root + seq!['/'] + raw
}

/// The buffer one file argument gives rise to: none for a directory, the
/// file's content under its canonical path for an existing file, and an
/// empty buffer under the absolutized target path for a path that names
/// nothing yet.
pub open spec fn buffer_for(root: Seq<char>, arg: PathArg) -> Option<BufferView> {
    match arg.kind {
        PathKind::Directory { .. } => Option::None,
        PathKind::File { canonical, content } => Option::Some(
            BufferView { path: Option::Some(canonical@), data: content@ },
        ),
        PathKind::Missing { absolute } => Option::Some(
            BufferView {
                path: Option::Some(if absolute { arg.raw@ } else { joined_path(root, arg.raw@) }),
                data: Seq::<char>::empty(),
            },
        ),
    }
}

/// The buffers a run of file arguments opens, in argument order.
pub open spec fn planned_buffers(root: Seq<char>, args: Seq<PathArg>) -> Seq<BufferView>
    decreases args.len(),
{
    if args.len() == 0 {
        Seq::<BufferView>::empty()
    } else {
        let rest = planned_buffers(root, args.drop_first());
        match buffer_for(root, args[0]) {
            Option::Some(b) => seq![b] + rest,
            Option::None => rest,
        }
    }
}

/// Where the scan for file arguments begins: past the executable name,
/// and also past the first path argument when that one was consumed as
/// the session root.
pub open spec fn scan_start(args: Seq<PathArg>) -> int {
    if first_arg_is_dir(args) {
        2
    } else {
        1
    }
}

/// Every buffer a whole argument list opens, in order. The executable
/// name and a leading directory argument open none.
pub open spec fn session_buffers(args: Seq<PathArg>, initial_dir: Seq<char>) -> Seq<BufferView> {
    if args.len() <= 1 {
        Seq::<BufferView>::empty()
    } else {
        planned_buffers(root_spec(args, initial_dir), args.skip(scan_start(args)))
    }
}

/// Scanning one further argument appends that argument's buffer, if it
/// has one, and nothing else.
proof fn lemma_planned_buffers_push(root: Seq<char>, s: Seq<PathArg>, x: PathArg)
    ensures
        planned_buffers(root, s.push(x)) == planned_buffers(root, s) + (match buffer_for(root, x) {
            Option::Some(b) => seq![b],
            Option::None => Seq::<BufferView>::empty(),
        }),
    decreases s.len(),
{
    reveal_with_fuel(planned_buffers, 3);
    let tail = match buffer_for(root, x) {
        Option::Some(b) => seq![b],
        Option::None => Seq::<BufferView>::empty(),
    };
    if s.len() == 0 {
        assert(s.push(x).drop_first() =~= Seq::<PathArg>::empty());
        assert(s.push(x)[0] == x);
        match buffer_for(root, x) {
            Option::Some(b) => {
                assert(planned_buffers(root, s.push(x)) =~= seq![b] + Seq::<BufferView>::empty());
                assert(planned_buffers(root, s.push(x)) =~= seq![b]);
                assert(planned_buffers(root, s) + tail =~= seq![b]);
            },
            Option::None => {
                assert(planned_buffers(root, s.push(x)) =~= Seq::<BufferView>::empty());
                assert(planned_buffers(root, s) + tail =~= Seq::<BufferView>::empty());
            },
        }
    } else {
        assert(s.push(x).drop_first() =~= s.drop_first().push(x));
        assert(s.push(x)[0] == s[0]);
        lemma_planned_buffers_push(root, s.drop_first(), x);
        assert(planned_buffers(root, s.push(x)) =~= planned_buffers(root, s) + tail);
    }
}

/// A relative path made absolute against the session root.
pub fn join_path(root: &String, raw: &String) -> (r: String)
    ensures
        r@ == joined_path(root@, raw@),
{
    proof {
        reveal_strlit("/");
        assert("/"@ =~= seq!['/']);
    }
    let mut s = root.clone();
    s.append("/");
    s.append(raw.as_str());
    s
}

/// Resolves the editing session from the classified startup arguments.
///
/// The argument list is the full one: its first entry is the executable
/// name and is discarded. When the first path argument names an existing
/// directory, its canonical form becomes the session root and that
/// argument is consumed — it never also opens a buffer. Syntax
/// definitions must already be loaded and linked before any buffer is
/// created; a failed load is therefore fatal here, and `syntax_load`
/// carries the loading collaborator's outcome. Every remaining argument
/// is scanned in order: further directories are skipped, an existing
/// file opens with its content, and a path that names nothing becomes a
/// new empty buffer whose target is absolutized against the root. The
/// last buffer added is marked current. The caller still asks the
/// rendering surface to prepare display state for each buffer of the
/// returned session.
pub fn create_workspace(
    args: &Vec<PathArg>,
    initial_dir: &String,
    syntax_load: Result<(), Error>,
) -> (r: Result<Workspace, Error>)
    ensures
        r is Ok <==> syntax_load is Ok,
        match r {
            Result::Ok(w) => ({
                let planned = session_buffers(args@, initial_dir@);
                &&& w.path@ == root_spec(args@, initial_dir@)
                &&& buffers_view(w.buffers@) == planned
                &&& w.buffers@.len() == planned.len()
                &&& w.current == (if planned.len() == 0 {
                    Option::<usize>::None
                } else {
                    Option::Some((planned.len() - 1) as usize)
                })
                &&& w.syntaxes_linked
                &&& w.wf()
            }),
            Result::Err(e) => (syntax_load matches Err(le)
                && e.message@ == "Failed to load user syntaxes: "@ + le.message@),
        },
{
    let root: String = if args.len() >= 2 {
        match &args[1].kind {
            PathKind::Directory { canonical } => canonical.clone(),
            _ => initial_dir.clone(),
        }
    } else {
        initial_dir.clone()
    };
    let mut workspace = Workspace::new(root);

    // Load user syntax definitions before any buffer exists, because a
    // buffer is associated with a definition when it is created.
    match syntax_load {
        Result::Ok(_) => {},
        Result::Err(le) => {
            let prefix = String::from_str("Failed to load user syntaxes: ");
            return Result::Err(Error::new(prefix.concat(le.message.as_str())));
        },
    }
    workspace.link_syntaxes();

    if args.len() <= 1 {
        // Only the executable name was given: no buffers to open.
        return Result::Ok(workspace);
    }

    let start: usize = match &args[1].kind {
        PathKind::Directory { .. } => 2,
        _ => 1,
    };
    assert(start == scan_start(args@));

    let ghost spec_root = workspace.path@;
    let mut i: usize = start;
    assert(args@.subrange(start as int, i as int) =~= Seq::<PathArg>::empty());
    while i < args.len()
        invariant
            2 <= args@.len(),
            start == scan_start(args@),
            start <= i <= args.len(),
            workspace.path@ == spec_root,
            spec_root == root_spec(args@, initial_dir@),
            workspace.syntaxes_linked,
            workspace.wf(),
            workspace.buffers@.len() <= i,
            buffers_view(workspace.buffers@) == planned_buffers(
                spec_root,
                args@.subrange(start as int, i as int),
            ),
            workspace.current == (if workspace.buffers@.len() == 0 {
                Option::<usize>::None
            } else {
                Option::Some((workspace.buffers@.len() - 1) as usize)
            }),
        decreases args.len() - i,
    {
        let ghost prefix = args@.subrange(start as int, i as int);
        let arg = &args[i];
        match &arg.kind {
            PathKind::Directory { .. } => {},
            PathKind::File { canonical, content } => {
                let b = Buffer {
                    path: Option::Some(canonical.clone()),
                    data: content.clone(),
                };
                workspace.add_buffer(b);
            },
            PathKind::Missing { absolute } => {
                let target = if *absolute {
                    arg.raw.clone()
                } else {
                    join_path(&workspace.path, &arg.raw)
                };
                let b = Buffer { path: Option::Some(target), data: String::new() };
                workspace.add_buffer(b);
            },
        }
        proof {
            assert(args@.subrange(start as int, i as int + 1) =~= prefix.push(args@[i as int]));
            lemma_planned_buffers_push(spec_root, prefix, args@[i as int]);
            assert(buffers_view(workspace.buffers@) =~= planned_buffers(
                spec_root,
                args@.subrange(start as int, i as int + 1),
            ));
        }
        i = i + 1;
    }
    proof {
        assert(args@.subrange(start as int, args@.len() as int) =~= args@.skip(start as int));
    }
    Result::Ok(workspace)
}

/// The application core: the owner of the session, the active mode, the
/// clipboard, the pending error and the rendering surface, and the only
/// writer of any of them.
pub struct Application {
    pub mode: Mode,
    pub workspace: Workspace,
    pub search_query: Option<String>,
    pub view: Surface,
    pub clipboard: Clipboard,
    pub repository: Option<Repository>,
    pub error: Option<Error>,
    pub preferences: Preferences,
    /// The order of renders and event consumptions so far, kept only
    /// for reasoning: the loop-ordering guarantees are stated over it.
    pub trace: Ghost<Seq<TraceStep>>,
}

/// One observable step of the run loop: a render of the active mode, or
/// the consumption of one event from the queue.
pub enum TraceStep {
    Rendered,
    Consumed(Event),
}

/// The command collaborator's report on one key press: the key was
/// handled in place, it moved the editor to another mode, or it could
/// not be handled.
pub enum CommandEffect {
    Stay,
    SwitchMode(Mode),
    Fail(Error),
}

/// The presentation collaborator's report on one attempt to draw the
/// active mode.
pub enum DrawOutcome {
    Drawn,
    Failed(Error),
}

/// Everything one iteration of the run loop consumes from outside the
/// core: the presenter's drawing report, the event taken from the
/// queue, and — for a key event — the command collaborator's report.
pub struct LoopInput {
    pub draw: DrawOutcome,
    pub event: Event,
    pub effect: CommandEffect,
}

/// The core's observable state: every field the run loop reads or
/// writes. The step functions below say, value for value, what one
/// render and one event do to it.
pub struct CoreState {
    pub mode: Mode,
    pub workspace: Workspace,
    pub search_query: Option<String>,
    pub view: Surface,
    pub clipboard: ClipboardContent,
    pub repository: Option<Repository>,
    pub error: Option<Error>,
    pub preferences: Preferences,
}

/// A mode switch the command collaborator may lawfully request: the
/// selection modes demand a current buffer to select in.
pub open spec fn effect_admissible(effect: CommandEffect, workspace: Workspace) -> bool {
    match effect {
        CommandEffect::SwitchMode(m) => (m is Select || m is SelectLine)
            ==> workspace.current is Some,
        _ => true,
    }
}

/// What one render does: a fresh drawing failure always wins the status
/// line; otherwise the pending error from the previous event, if any,
/// is shown; otherwise no error is shown. The pending error itself is
/// not consumed — only the next event's handling overwrites it.
pub open spec fn render_step(app: CoreState, draw: DrawOutcome) -> CoreState {
    let shown = match draw {
        DrawOutcome::Failed(e) => Option::Some(e),
        DrawOutcome::Drawn => app.error,
    };
    CoreState {
        view: Surface {
            terminal: app.view.terminal,
            last_key: app.view.last_key,
            error_display: match shown {
                Option::Some(e) => Option::Some(
                    StatusLineData {
                        content: e.message,
                        style: Style::Bold,
                        colors: Colors::Warning,
                    },
                ),
                Option::None => Option::None,
            },
        },
        ..app
    }
}

/// What consuming one event does. A key press is recorded as the last
/// key and handed to the command collaborator, whose failure becomes
/// the new pending error and whose success clears it. A resize needs no
/// core action. A completed path index is installed into Open mode and
/// its search re-run with whatever query accumulated meanwhile; if the
/// user has already left Open mode, the stale index is discarded
/// without any state change and without an error.
pub open spec fn route_step(app: CoreState, event: Event, effect: CommandEffect) -> CoreState {
    match event {
        Event::Key(key) => {
            let viewed = Surface {
                terminal: app.view.terminal,
                last_key: Option::Some(key),
                error_display: app.view.error_display,
            };
            match effect {
                CommandEffect::Stay => CoreState { view: viewed, error: Option::None, ..app },
                CommandEffect::SwitchMode(m) => CoreState {
                    mode: m,
                    view: viewed,
                    error: Option::None,
                    ..app
                },
                CommandEffect::Fail(e) => CoreState {
                    view: viewed,
                    error: Option::Some(e),
                    ..app
                },
            }
        },
        Event::Resize => app,
        Event::OpenModeIndexComplete(index) => match app.mode {
            Mode::Open(m) => CoreState {
                mode: Mode::Open(
                    OpenMode {
                        insert: m.insert,
                        query: m.query,
                        index: Option::Some(index),
                        searched_query: Option::Some(m.query),
                    },
                ),
                ..app
            },
            _ => app,
        },
    }
}

/// One whole loop iteration: render the active mode, then consume one
/// event.
pub open spec fn iter_step(app: CoreState, input: LoopInput) -> CoreState {
    route_step(render_step(app, input.draw), input.event, input.effect)
}

/// The state the run loop ends in: events are folded in strictly in
/// arrival order, and the fold stops at the first iteration that leaves
/// the editor in Exit.
pub open spec fn run_state(app: CoreState, inputs: Seq<LoopInput>) -> CoreState
    decreases inputs.len(),
{
    if inputs.len() == 0 {
        app
    } else {
        let next = iter_step(app, inputs[0]);
        if next.mode is Exit {
            next
        } else {
            run_state(next, inputs.drop_first())
        }
    }
}

/// Whether the run loop reaches Exit before the queue runs dry.
pub open spec fn run_exits(app: CoreState, inputs: Seq<LoopInput>) -> bool
    decreases inputs.len(),
{
    if inputs.len() == 0 {
        false
    } else {
        let next = iter_step(app, inputs[0]);
        next.mode is Exit || run_exits(next, inputs.drop_first())
    }
}

/// How many events the run loop consumes.
pub open spec fn run_consumed(app: CoreState, inputs: Seq<LoopInput>) -> int
    decreases inputs.len(),
{
    if inputs.len() == 0 {
        0
    } else {
        let next = iter_step(app, inputs[0]);
        if next.mode is Exit {
            1
        } else {
            1 + run_consumed(next, inputs.drop_first())
        }
    }
}

/// The observable order of the run loop's work: a render, then one
/// consumption, for each iteration until it stops.
pub open spec fn run_trace(app: CoreState, inputs: Seq<LoopInput>) -> Seq<TraceStep>
    decreases inputs.len(),
{
    if inputs.len() == 0 {
        Seq::<TraceStep>::empty()
    } else {
        let next = iter_step(app, inputs[0]);
        let head = seq![TraceStep::Rendered, TraceStep::Consumed(inputs[0].event)];
        if next.mode is Exit {
            head
        } else {
            head + run_trace(next, inputs.drop_first())
        }
    }
}

/// The observable order of work the run loop promises: one render, then
/// one consumption, for each event in arrival order.
pub open spec fn interleaved_trace(events: Seq<Event>) -> Seq<TraceStep>
    decreases events.len(),
{
    if events.len() == 0 {
        Seq::<TraceStep>::empty()
    } else {
        seq![TraceStep::Rendered, TraceStep::Consumed(events[0])] + interleaved_trace(
            events.drop_first(),
        )
    }
}

/// For every argument list whose first path argument names an existing
/// directory, bootstrap resolves the session root to that directory's
/// canonical form, and resolving it consumes the argument: the session's
/// buffers come from the later arguments alone, so the directory is
/// never also interpreted as a file-buffer request.
pub proof fn lemma_first_directory_argument_becomes_root(
    args: Seq<PathArg>,
    initial_dir: Seq<char>,
    canonical: String,
)
    requires
        args.len() >= 2,
        args[1].kind == (PathKind::Directory { canonical }),
    ensures
        root_spec(args, initial_dir) == canonical@,
        session_buffers(args, initial_dir) == planned_buffers(canonical@, args.skip(2)),
{
}

/// The run loop processes events strictly in arrival order and renders
/// exactly once between consecutive consumptions: its observable trace
/// is the strict alternation render, consume the first event, render,
/// consume the second, and so on, over exactly the events it consumed.
pub proof fn lemma_run_renders_once_per_event(app: CoreState, inputs: Seq<LoopInput>)
    ensures
        0 <= run_consumed(app, inputs) <= inputs.len(),
        run_trace(app, inputs) == interleaved_trace(
            inputs.map_values(|inp: LoopInput| inp.event).take(run_consumed(app, inputs)),
        ),
    decreases inputs.len(),
{
    let events = inputs.map_values(|inp: LoopInput| inp.event);
    if inputs.len() == 0 {
        assert(events.take(0) =~= Seq::<Event>::empty());
        assert(run_trace(app, inputs) =~= interleaved_trace(events.take(0)));
    } else {
        let next = iter_step(app, inputs[0]);
        let head = seq![TraceStep::Rendered, TraceStep::Consumed(inputs[0].event)];
        if next.mode is Exit {
            let taken = events.take(1);
            assert(taken[0] == inputs[0].event);
            assert(taken.drop_first() =~= Seq::<Event>::empty());
            assert(interleaved_trace(Seq::<Event>::empty()) =~= Seq::<TraceStep>::empty());
            assert(interleaved_trace(taken) =~= head + Seq::<TraceStep>::empty());
            assert(interleaved_trace(taken) =~= head);
            assert(run_trace(app, inputs) =~= interleaved_trace(taken));
        } else {
            lemma_run_renders_once_per_event(next, inputs.drop_first());
            let c = run_consumed(next, inputs.drop_first());
            let tail_events = inputs.drop_first().map_values(|inp: LoopInput| inp.event);
            let taken = events.take(1 + c);
            assert(taken[0] == inputs[0].event);
            assert(taken.drop_first() =~= tail_events.take(c));
            assert(interleaved_trace(taken) =~= head + interleaved_trace(tail_events.take(c)));
            assert(run_trace(app, inputs) =~= interleaved_trace(taken));
        }
    }
}

/// A completed-index event arriving while the editor is no longer in
/// Open mode is silently discarded: it produces no observable state
/// change and no error.
pub proof fn lemma_stale_index_is_discarded(
    app: CoreState,
    index: PathIndex,
    effect: CommandEffect,
)
    requires
        !(app.mode is Open),
    ensures
        route_step(app, Event::OpenModeIndexComplete(index), effect) == app,
{
}

/// On any one frame, a fresh drawing failure takes precedence over any
/// pending event-handling error in what the status line displays; with
/// no drawing failure the pending error, if any, is displayed; with
/// neither, no error is displayed.
pub proof fn lemma_drawing_failure_takes_precedence(app: CoreState, e: Error)
    ensures
        render_step(app, DrawOutcome::Failed(e)).view.error_display == Option::Some(
            (StatusLineData { content: e.message, style: Style::Bold, colors: Colors::Warning }),
        ),
        app.error matches Some(pe) ==> render_step(app, DrawOutcome::Drawn).view.error_display
            == Option::Some(
            (StatusLineData { content: pe.message, style: Style::Bold, colors: Colors::Warning }),
        ),
        app.error is None ==> render_step(app, DrawOutcome::Drawn).view.error_display is None,
{
}

/// Exit and termination coincide: when the loop stops early its final
/// mode is Exit; when it never observes Exit (and did not start there)
/// its final mode is not Exit and every queued event was consumed; and
/// the final state is the fold over the consumed prefix alone — no
/// event is processed after Exit is observed.
pub proof fn lemma_exit_iff_terminated(app: CoreState, inputs: Seq<LoopInput>)
    ensures
        0 <= run_consumed(app, inputs) <= inputs.len(),
        run_exits(app, inputs) ==> run_state(app, inputs).mode is Exit,
        !run_exits(app, inputs) && !(app.mode is Exit) ==> !(run_state(app, inputs).mode is Exit),
        !run_exits(app, inputs) ==> run_consumed(app, inputs) == inputs.len(),
        run_state(app, inputs) == run_state(app, inputs.take(run_consumed(app, inputs))),
    decreases inputs.len(),
{
    if inputs.len() == 0 {
        assert(inputs.take(0) =~= inputs);
    } else {
        let next = iter_step(app, inputs[0]);
        if next.mode is Exit {
            let taken = inputs.take(1);
            assert(taken[0] == inputs[0]);
            assert(run_state(app, taken) == next);
        } else {
            lemma_exit_iff_terminated(next, inputs.drop_first());
            let c = run_consumed(next, inputs.drop_first());
            let taken = inputs.take(1 + c);
            assert(taken[0] == inputs[0]);
            assert(taken.drop_first() =~= inputs.drop_first().take(c));
            assert(run_state(app, taken) == run_state(next, inputs.drop_first().take(c)));
        }
    }
}

impl Application {
    /// Global consistency: the selection modes may only be active while
    /// the session has a current buffer to select in, and the session's
    /// own invariant holds.
    pub open spec fn wf(&self) -> bool {
        &&& self.workspace.wf()
        &&& (self.mode is Select || self.mode is SelectLine) ==> self.workspace.current is Some
    }

    /// The stable, human-readable label of the active mode, or nothing
    /// for Exit.
    pub fn mode_str(&self) -> (r: Option<&'static str>)
        ensures
            match (r, mode_str_spec(self.mode)) {
                (Option::Some(s), Option::Some(t)) => s@ == t,
                (Option::None, Option::None) => true,
                _ => false,
            },
    {
        match &self.mode {
            Mode::Command(mode) => if mode.insert_mode() {
                Option::Some("search_select_insert")
            } else {
                Option::Some("search_select")
            },
            Mode::SymbolJump(mode) => if mode.insert_mode() {
                Option::Some("search_select_insert")
            } else {
                Option::Some("search_select")
            },
            Mode::Open(mode) => if mode.insert_mode() {
                Option::Some("search_select_insert")
            } else {
                Option::Some("search_select")
            },
            Mode::Theme(mode) => if mode.insert_mode() {
                Option::Some("search_select_insert")
            } else {
                Option::Some("search_select")
            },
            Mode::Normal => Option::Some("normal"),
            Mode::Path(_) => Option::Some("path"),
            Mode::Confirm(_) => Option::Some("confirm"),
            Mode::Insert => Option::Some("insert"),
            Mode::Jump(_) => Option::Some("jump"),
            Mode::LineJump(_) => Option::Some("line_jump"),
            Mode::Select(_) => Option::Some("select"),
            Mode::SelectLine(_) => Option::Some("select_line"),
            Mode::Search(mode) => if mode.insert_mode() {
                Option::Some("search_insert")
            } else {
                Option::Some("search")
            },
            Mode::Exit => Option::None,
        }
    }

    /// The observable state the step functions speak of.
    pub open spec fn state(self) -> CoreState {
        CoreState {
            mode: self.mode,
            workspace: self.workspace,
            search_query: self.search_query,
            view: self.view,
            clipboard: self.clipboard@,
            repository: self.repository,
            error: self.error,
            preferences: self.preferences,
        }
    }

    /// Builds the core from the startup inputs. The invoking shell has
    /// already performed the filesystem and terminal work: it hands over
    /// the classified arguments, the initial working directory, the
    /// outcome of loading persisted preferences (absence falls back on
    /// defaults and never fails startup), the outcome of constructing
    /// the rendering surface, the outcome of loading user syntax
    /// definitions, and whether version-control discovery found a
    /// repository (absence is not an error). Construction fails exactly
    /// when the surface could not be built or the session could not be
    /// resolved; on failure no partial core exists at all, and on
    /// success every field is fully initialized.
    pub fn new(
        args: &Vec<PathArg>,
        initial_dir: &String,
        preferences_loaded: Option<Preferences>,
        surface: Result<Surface, Error>,
        syntax_load: Result<(), Error>,
        repository: Option<Repository>,
    ) -> (r: Result<Application, Error>)
        ensures
            r is Ok <==> (surface is Ok && syntax_load is Ok),
            match r {
                Result::Ok(app) => ({
                    let planned = session_buffers(args@, initial_dir@);
                    &&& app.mode is Normal
                    &&& app.workspace.path@ == root_spec(args@, initial_dir@)
                    &&& buffers_view(app.workspace.buffers@) == planned
                    &&& app.workspace.buffers@.len() == planned.len()
                    &&& app.workspace.current == (if planned.len() == 0 {
                        Option::<usize>::None
                    } else {
                        Option::Some((planned.len() - 1) as usize)
                    })
                    &&& app.workspace.syntaxes_linked
                    &&& app.search_query is None
                    &&& app.error is None
                    &&& (surface matches Ok(v) && app.view == v)
                    &&& app.clipboard@ is Empty
                    &&& app.repository == repository
                    &&& match preferences_loaded {
                        Option::Some(p) => app.preferences == p,
                        Option::None => app.preferences@ == crate::preferences::default_view(
                            Option::None,
                        ),
                    }
                    &&& app.trace@ == Seq::<TraceStep>::empty()
                    &&& app.wf()
                }),
                Result::Err(e) => {
                    &&& (surface matches Err(se) ==> e == se)
                    &&& (surface is Ok ==> (syntax_load matches Err(le) && e.message@
                        == "Failed to load user syntaxes: "@ + le.message@))
                },
            },
    {
        let preferences = initialize_preferences(preferences_loaded);
        let view = match surface {
            Result::Ok(v) => v,
            Result::Err(e) => {
                return Result::Err(e);
            },
        };
        let clipboard = Clipboard::new();
        let workspace = match create_workspace(args, initial_dir, syntax_load) {
            Result::Ok(w) => w,
            Result::Err(e) => {
                return Result::Err(e);
            },
        };
        Result::Ok(
            Application {
                mode: Mode::Normal,
                workspace,
                search_query: Option::None,
                view,
                clipboard,
                repository,
                error: Option::None,
                preferences,
                trace: Ghost(Seq::<TraceStep>::empty()),
            },
        )
    }

    /// The render step: the active mode was just drawn (or failed to
    /// draw), and the status line is settled accordingly — a fresh
    /// drawing failure first, else the pending error, else nothing.
    pub fn render(&mut self, draw: &DrawOutcome)
        ensures
            final(self).state() == render_step(old(self).state(), *draw),
            final(self).trace@ == old(self).trace@.push(TraceStep::Rendered),
            old(self).wf() ==> final(self).wf(),
    {
        proof {
            self.trace@ = self.trace@.push(TraceStep::Rendered);
        }
        match draw {
            DrawOutcome::Failed(e) => {
                render_error(&mut self.view, e);
            },
            DrawOutcome::Drawn => {
                match &self.error {
                    Option::Some(e) => {
                        render_error(&mut self.view, e);
                    },
                    Option::None => {
                        self.view.error_display = Option::None;
                    },
                }
            },
        }
    }

    /// Routes one event from the queue, given the command
    /// collaborator's report where the event is a key press.
    pub fn handle_event(&mut self, event: Event, effect: CommandEffect)
        requires
            old(self).wf(),
            effect_admissible(effect, old(self).workspace),
        ensures
            final(self).state() == route_step(old(self).state(), event, effect),
            final(self).trace@ == old(self).trace@.push(TraceStep::Consumed(event)),
            final(self).wf(),
            final(self).workspace == old(self).workspace,
    {
        proof {
            self.trace@ = self.trace@.push(TraceStep::Consumed(event));
        }
        match event {
            Event::Key(key) => {
                self.view.last_key = Option::Some(key);
                match effect {
                    CommandEffect::Stay => {
                        self.error = Option::None;
                    },
                    CommandEffect::SwitchMode(m) => {
                        self.mode = m;
                        self.error = Option::None;
                    },
                    CommandEffect::Fail(e) => {
                        self.error = Option::Some(e);
                    },
                }
            },
            Event::Resize => {},
            Event::OpenModeIndexComplete(index) => {
                match &mut self.mode {
                    Mode::Open(open_mode) => {
                        open_mode.set_index(index);
                        // Re-run the search: a query may have been
                        // typed while indexing was in flight.
                        open_mode.search();
                    },
                    _ => {},
                }
            },
        }
    }

    /// The run loop: render the active mode, consume exactly one event,
    /// and stop once the editor is in Exit. `inputs` carries, per
    /// iteration, what the loop takes from outside itself: the drawing
    /// report, the event, and the command collaborator's report. The
    /// result is `Ok` exactly when Exit was reached; a queue that runs
    /// dry first means every producer is gone, which the loop reports
    /// as a lost event channel.
    pub fn run(&mut self, inputs: Vec<LoopInput>) -> (r: Result<(), Error>)
        requires
            old(self).wf(),
            forall|i: int|
                0 <= i < inputs@.len() ==> effect_admissible(
                    #[trigger] inputs@[i].effect,
                    old(self).workspace,
                ),
        ensures
            final(self).state() == run_state(old(self).state(), inputs@),
            final(self).wf(),
            (r is Ok) == run_exits(old(self).state(), inputs@),
            final(self).trace@ == old(self).trace@ + run_trace(old(self).state(), inputs@),
            r matches Err(e) ==> e.message@ == "Error receiving application event"@,
    {
        let mut queue = inputs;
        let ghost all = queue@;
        let ghost start_core = self.state();
        let ghost start_trace = self.trace@;
        let mut exited = false;
        while !exited && queue.len() > 0
            invariant
                self.wf(),
                self.workspace == old(self).workspace,
                forall|i: int|
                    0 <= i < queue@.len() ==> effect_admissible(
                        #[trigger] queue@[i].effect,
                        old(self).workspace,
                    ),
                !exited ==> ({
                    &&& run_state(start_core, all) == run_state(self.state(), queue@)
                    &&& run_exits(start_core, all) == run_exits(self.state(), queue@)
                    &&& start_trace + run_trace(start_core, all) == self.trace@ + run_trace(
                        self.state(),
                        queue@,
                    )
                }),
                exited ==> ({
                    &&& self.mode is Exit
                    &&& run_state(start_core, all) == self.state()
                    &&& run_exits(start_core, all)
                    &&& start_trace + run_trace(start_core, all) == self.trace@
                }),
            decreases queue.len(),
        {
            let ghost pre_core = self.state();
            let ghost pre_queue = queue@;
            let ghost pre_trace = self.trace@;
            let input = queue.remove(0);
            self.render(&input.draw);
            self.handle_event(input.event, input.effect);
            match &self.mode {
                Mode::Exit => {
                    exited = true;
                },
                _ => {},
            }
            proof {
                assert(pre_queue[0] == input);
                assert(queue@ =~= pre_queue.drop_first());
                assert(self.state() == iter_step(pre_core, input));
                let head = seq![TraceStep::Rendered, TraceStep::Consumed(input.event)];
                assert(self.trace@ =~= pre_trace + head);
                if exited {
                    assert(run_state(pre_core, pre_queue) == self.state());
                    assert(run_trace(pre_core, pre_queue) == head);
                    assert(start_trace + run_trace(start_core, all) =~= self.trace@);
                } else {
                    assert(run_state(pre_core, pre_queue) == run_state(self.state(), queue@));
                    assert(run_trace(pre_core, pre_queue) == head + run_trace(
                        self.state(),
                        queue@,
                    ));
                    assert(start_trace + run_trace(start_core, all) =~= self.trace@
                        + run_trace(self.state(), queue@));
                }
            }
        }
        if exited {
            Result::Ok(())
        } else {
            proof {
                assert(queue@.len() == 0);
                assert(run_state(self.state(), queue@) == self.state());
                assert(!run_exits(self.state(), queue@));
                assert(run_trace(self.state(), queue@) =~= Seq::<TraceStep>::empty());
                assert(start_trace + run_trace(start_core, all) =~= self.trace@);
            }
            Result::Err(Error::new(String::from_str("Error receiving application event")))
        }
    }
}

} // verus!
