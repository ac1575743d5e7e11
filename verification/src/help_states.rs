//! The help screen: a document that scrolls.

use vstd::prelude::*;
use crate::app_context::AppContext;
use crate::app_state::{
    verb_not_found_message, AppState, AppStateCmdResult, CmdResultView, Step, StepView,
};
use crate::area::{padded_area, Area};
use crate::commands::{Action, ActionView, Command};
use crate::doc_view::{
    clamped, is_drawing_of, last_scroll, lemma_scroll_run_clamps, scroll_run, DocModel, DocView,
};
use crate::errors::ProgramError;
use crate::io::W;
use crate::screens::{clear_code, queue_clear, ClearType, Screen};
use crate::status::{status_err_written, status_text_written, Status};
use crate::verb_store::PrefixSearchResult;

verus! {

/// The widest that the help is drawn.
pub const MAX_HELP_WIDTH: u16 = 110;

/// The area of the help on a terminal: all rows but the last two, which
/// hold the status and the input, and at most `MAX_HELP_WIDTH` columns,
/// centred.
pub open spec fn help_area(screen_width: u16, screen_height: u16) -> Area
    recommends
        screen_height >= 2,
{
    padded_area(
        Area { left: 0, top: 0, width: screen_width, height: (screen_height - 2) as u16 },
        MAX_HELP_WIDTH,
    )
}

/// What a help screen is: its document in its area, whether the terminal
/// still shows something else, and whether a clearing was queued of which
/// the host has not yet told that it was sent.
pub struct HelpModel {
    pub dirty: bool,
    pub clearing_queued: bool,
    pub doc: DocModel,
}

/// A screen that shows the help.
pub struct HelpState {
    dirty: bool,
    clearing_queued: bool,
    pub view: DocView,
}

impl View for HelpState {
    type V = HelpModel;

    closed spec fn view(&self) -> HelpModel {
        HelpModel { dirty: self.dirty, clearing_queued: self.clearing_queued, doc: self.view@ }
    }
}

impl HelpModel {
    /// The screen, its document placed for a terminal of this size.
    pub open spec fn placed(self, screen: Screen) -> HelpModel {
        HelpModel { doc: self.doc.resized(help_area(screen.width, screen.height)), ..self }
    }

    /// The screen after `action` was applied on a terminal of this size.
    pub open spec fn applied(self, action: ActionView, screen: Screen) -> HelpModel {
        match action {
            ActionView::MoveSelection(dy) => HelpModel {
                doc: self.placed(screen).doc.scrolled(dy),
                ..self
            },
            _ => self.placed(screen),
        }
    }

    /// The screen after it was drawn on a terminal of this size: what was
    /// due is queued, and a clearing among it waits for the host's word.
    pub open spec fn displayed(self, screen: Screen) -> HelpModel {
        HelpModel {
            dirty: false,
            clearing_queued: self.dirty || self.clearing_queued,
            doc: self.placed(screen).doc,
        }
    }

    /// The screen after the host told what became of the queued text: a
    /// clearing that was not sent is due again.
    pub open spec fn told(self, sent: bool) -> HelpModel {
        HelpModel {
            dirty: self.dirty || (self.clearing_queued && !sent),
            clearing_queued: false,
            ..self
        }
    }

    /// What drawing the screen queues before its document: the clearing of
    /// the terminal, if the terminal still shows something else.
    pub open spec fn clearing(self) -> Seq<char> {
        if self.dirty {
            clear_code(ClearType::All)
        } else {
            Seq::<char>::empty()
        }
    }
}

/// Whether the help can take `action`: the terminal has the two rows that
/// the help leaves free, the renderer can lay the document out once placed
/// where it is to scroll, and an index is one of the catalog.
pub open spec fn help_can_apply(
    state: HelpModel,
    action: ActionView,
    screen: Screen,
    catalog: Seq<Seq<char>>,
) -> bool {
    &&& screen.height >= 2
    &&& action is MoveSelection ==> state.placed(screen).doc.lays_out()
    &&& action matches ActionView::VerbIndex(index) ==> index < catalog.len()
}

/// Whether the help can be drawn: the terminal has the two rows that the
/// help leaves free, and the renderer can draw the document once placed.
pub open spec fn help_can_display(state: HelpModel, screen: Screen) -> bool {
    &&& screen.height >= 2
    &&& state.placed(screen).doc.drawable()
}

/// Whether `after` is `before` and a drawing of the help: the clearing of
/// the terminal where it is due, then what the renderer draws of the
/// document, placed for the terminal, from its scroll on.
pub open spec fn help_drawn(state: HelpModel, screen: Screen, before: Seq<char>, after: Seq<char>) -> bool {
    &&& (before + state.clearing()).is_prefix_of(after)
    &&& exists|plain: bool| #[trigger]
        is_drawing_of(
            state.displayed(screen).doc,
            plain,
            after.skip((before + state.clearing()).len() as int),
        )
}

/// What the help answers to `action`, before any search.
pub open spec fn help_step(action: ActionView, catalog: Seq<Seq<char>>) -> StepView<CmdResultView>
    recommends
        action matches ActionView::VerbIndex(index) ==> index < catalog.len(),
{
    match action {
        ActionView::Back => StepView::Done(CmdResultView::PopState),
        ActionView::VerbIndex(index) => StepView::Verb(index, catalog[index as int]),
        ActionView::VerbInvocate(invocation) => StepView::Search(invocation),
        _ => StepView::Done(CmdResultView::Keep),
    }
}

/// What the help answers to an invocation, once the catalog was searched.
pub open spec fn help_found_step(invocation: Seq<char>, found: PrefixSearchResult) -> StepView<
    CmdResultView,
> {
    match found {
        PrefixSearchResult::Match(index) => StepView::Verb(index as nat, invocation),
        _ => StepView::Done(CmdResultView::DisplayError(verb_not_found_message(invocation))),
    }
}

/// The status of an invocation that no verb answers to.
pub open spec fn no_match_status() -> Seq<char> {
    "No matching verb"@
}

/// The status of an invocation that several verbs answer to.
pub open spec fn too_many_status() -> Seq<char> {
    "Type a verb then *enter* to execute it"@
}

/// The status of the help while no verb is typed.
pub open spec fn hint_status() -> Seq<char> {
    "press escape to exit, or space to start a command"@
}

impl HelpState {
    /// A help screen for `markdown`, not drawn yet.
    pub fn new(markdown: String, skin: termimad::MadSkin) -> (state: HelpState)
        ensures
            state@.dirty,
            !state@.clearing_queued,
            state@.doc == (DocModel {
                markdown: markdown@,
                skin,
                area: crate::area::uninitialized_area(),
                scroll: 0,
            }),
            state@.doc.wf(),
    {
        let area = Area::uninitialized();
        let view = DocView::from(markdown, area, skin);
        HelpState { dirty: true, clearing_queued: false, view }
    }

    /// The document of the help, in its area.
    pub fn doc(&self) -> (doc: &DocView)
        ensures
            doc@ == self@.doc,
    {
        &self.view
    }

    /// Places the document for a terminal of this size.
    pub fn resize_area(&mut self, screen: &Screen)
        requires
            screen.height >= 2,
        ensures
            final(self)@ == old(self)@.placed(*screen),
            final(self)@.doc.wf(),
    {
        let mut area = Area::new(0, 0, screen.width, screen.height - 2);
        area.pad_for_max_width(MAX_HELP_WIDTH);
        self.view.resize(&area);
    }

    /// Whether the screen can take `cmd` on a terminal of this size.
    pub fn can_apply(&self, cmd: &Command, screen: &Screen, con: &AppContext) -> (can: bool)
        ensures
            can == help_can_apply(self@, cmd.action@, *screen, con@),
    {
        if screen.height < 2 {
            return false;
        }
        match &cmd.action {
            Action::MoveSelection(_) => {
                let mut area = Area::new(0, 0, screen.width, screen.height - 2);
                area.pad_for_max_width(MAX_HELP_WIDTH);
                self.view.lays_out_in(&area)
            },
            Action::VerbIndex(index) => *index < con.verb_store.verbs.len(),
            _ => true,
        }
    }

    /// Applies `cmd` where the screen can take it; where it cannot,
    /// nothing changes.
    pub fn try_apply(&mut self, cmd: &Command, screen: &Screen, con: &AppContext) -> (step:
        Option<Step<AppStateCmdResult>>)
        ensures
            step is Some == help_can_apply(old(self)@, cmd.action@, *screen, con@),
            step is None ==> final(self)@ == old(self)@,
            step matches Some(answer) ==> final(self)@ == old(self)@.applied(cmd.action@, *screen)
                && answer@ == help_step(cmd.action@, con@),
    {
        if self.can_apply(cmd, screen, con) {
            Some(self.apply(cmd, screen, con))
        } else {
            None
        }
    }

    /// Whether the screen can be drawn on a terminal of this size.
    pub fn can_display(&self, screen: &Screen) -> (can: bool)
        ensures
            can == help_can_display(self@, *screen),
    {
        if screen.height < 2 {
            return false;
        }
        let mut area = Area::new(0, 0, screen.width, screen.height - 2);
        area.pad_for_max_width(MAX_HELP_WIDTH);
        self.view.drawable_in(&area)
    }

    /// Draws the screen where the renderer can; where it cannot, nothing is
    /// drawn and nothing changes.
    pub fn try_display(&mut self, w: &mut W, screen: &Screen, con: &AppContext) -> (done: Option<
        Result<(), ProgramError>,
    >)
        ensures
            done is Some == help_can_display(old(self)@, *screen),
            done is None ==> final(self)@ == old(self)@ && final(w)@ == old(w)@,
            done is Some ==> final(self)@ == old(self)@.displayed(*screen),
            done matches Some(Ok(_)) ==> help_drawn(old(self)@, *screen, old(w)@, final(w)@),
            done matches Some(Err(_)) ==> final(w)@ == old(w)@ + old(self)@.clearing(),
    {
        if self.can_display(screen) {
            Some(self.display(w, screen, con))
        } else {
            None
        }
    }
}

impl AppState for HelpState {
    open spec fn pending(&self) -> bool {
        false
    }

    open spec fn accepts(&self, cmd: &Command, screen: &Screen, con: &AppContext) -> bool {
        help_can_apply(self@, cmd.action@, *screen, con@)
    }

    open spec fn drawable_on(&self, screen: &Screen) -> bool {
        help_can_display(self@, *screen)
    }

    fn has_pending_task(&self) -> (pending: bool)
        ensures
            !pending,
    {
        false
    }

    fn apply(&mut self, cmd: &Command, screen: &Screen, con: &AppContext) -> (step: Step<
        AppStateCmdResult,
    >)
        ensures
            final(self)@ == old(self)@.applied(cmd.action@, *screen),
            final(self)@.doc.wf(),
            step@ == help_step(cmd.action@, con@),
    {
        self.resize_area(screen);
        match &cmd.action {
            Action::Back => Step::Done(AppStateCmdResult::PopState),
            Action::VerbIndex(index) => {
                let verb = &con.verb_store.verbs[*index];
                Step::Verb(*index, verb.invocation.clone())
            },
            Action::VerbInvocate(invocation) => Step::Search(invocation.clone()),
            Action::MoveSelection(dy) => {
                self.view.try_scroll_lines(*dy);
                Step::Done(AppStateCmdResult::Keep)
            },
            _ => Step::Done(AppStateCmdResult::Keep),
        }
    }

    fn apply_found(
        &mut self,
        invocation: String,
        found: PrefixSearchResult,
        screen: &Screen,
        con: &AppContext,
    ) -> (step: Step<AppStateCmdResult>)
        ensures
            final(self)@ == old(self)@,
            step@ == help_found_step(invocation@, found),
    {
        match found {
            PrefixSearchResult::Match(index) => Step::Verb(index, invocation),
            _ => Step::Done(AppStateCmdResult::verb_not_found(invocation.as_str())),
        }
    }

    fn refresh(&mut self, screen: &Screen, con: &AppContext) -> (cmd: Command)
        ensures
            final(self)@ == old(self)@,
            cmd.action@ == ActionView::Unparsed,
            cmd.raw@ == Seq::<char>::empty(),
    {
        Command::new()
    }

    /// The help never waits for a task, so nothing can ask it to do one.
    fn do_pending_task(&mut self, screen: &Screen) {
        vstd::pervasive::unreached()
    }

    fn display(&mut self, w: &mut W, screen: &Screen, con: &AppContext) -> (done: Result<
        (),
        ProgramError,
    >)
        ensures
            final(self)@ == old(self)@.displayed(*screen),
            done is Ok ==> help_drawn(old(self)@, *screen, old(w)@, final(w)@),
            done is Err ==> final(w)@ == old(w)@ + old(self)@.clearing(),
    {
        if self.dirty {
            // the terminal is not cleared more often than needed: a scroll
            // would flicker
            screen.clear(w);
            self.dirty = false;
            self.clearing_queued = true;
        }
        self.resize_area(screen);
        self.view.write_on(w)
    }

    /// A clearing that was queued and not sent is due again.
    fn sent(&mut self, sent: bool)
        ensures
            final(self)@ == old(self)@.told(sent),
    {
        if self.clearing_queued && !sent {
            self.dirty = true;
        }
        self.clearing_queued = false;
    }

    fn write_status(&self, w: &mut W, cmd: &Command, screen: &Screen, con: &AppContext) -> (step:
        Step<()>)
        ensures
            match cmd.action@ {
                ActionView::VerbEdit(invocation) => step@ == StepView::<()>::Search(invocation)
                    && final(w)@ == old(w)@,
                _ => step@ == StepView::Done(()) && status_text_written(
                    old(w)@,
                    final(w)@,
                    (screen.height - 1) as nat,
                    hint_status(),
                ),
            },
    {
        match &cmd.action {
            Action::VerbEdit(invocation) => Step::Search(invocation.clone()),
            _ => {
                screen.write_status_text(w, "press escape to exit, or space to start a command");
                Step::Done(())
            },
        }
    }

    fn write_status_found(
        &self,
        w: &mut W,
        invocation: String,
        found: PrefixSearchResult,
        screen: &Screen,
        con: &AppContext,
    ) -> (step: Step<()>)
        ensures
            match found {
                PrefixSearchResult::NoMatch => step@ == StepView::Done(()) && status_err_written(
                    old(w)@,
                    final(w)@,
                    (screen.height - 1) as nat,
                    no_match_status(),
                ),
                PrefixSearchResult::Match(index) => step@ == StepView::<()>::Verb(
                    index as nat,
                    invocation@,
                ) && final(w)@ == old(w)@,
                PrefixSearchResult::TooManyMatches => step@ == StepView::Done(())
                    && status_text_written(
                    old(w)@,
                    final(w)@,
                    (screen.height - 1) as nat,
                    too_many_status(),
                ),
            },
    {
        match found {
            PrefixSearchResult::NoMatch => {
                screen.write_status_err(w, "No matching verb");
                Step::Done(())
            },
            PrefixSearchResult::Match(index) => Step::Verb(index, invocation),
            PrefixSearchResult::TooManyMatches => {
                screen.write_status_text(w, "Type a verb then *enter* to execute it");
                Step::Done(())
            },
        }
    }

    /// The help has no flags: the row is cleared from the cursor on, in the
    /// default background of the skin.
    fn write_flags(&self, w: &mut W, screen: &Screen, con: &AppContext)
        ensures
            final(w)@ == old(w)@ + screen.default_bg@ + clear_code(ClearType::UntilNewLine),
    {
        w.append(screen.default_bg.as_str());
        queue_clear(w, ClearType::UntilNewLine);
    }
}

/// The screen after each of `dys` was applied in turn as a move of the
/// selection, on a terminal of this size.
pub open spec fn moved_by_all(state: HelpModel, dys: Seq<int>, screen: Screen) -> HelpModel
    decreases dys.len(),
{
    if dys.len() == 0 {
        state.placed(screen)
    } else {
        moved_by_all(state, dys.drop_last(), screen).applied(
            ActionView::MoveSelection(dys.last()),
            screen,
        )
    }
}

/// On a terminal that keeps its size, moves of the selection change the
/// scroll and nothing else, and the scroll follows the steps one by one.
pub proof fn lemma_moves_follow_steps(state: HelpModel, dys: Seq<int>, screen: Screen)
    ensures
        moved_by_all(state, dys, screen).doc == (DocModel {
            scroll: scroll_run(
                state.placed(screen).doc.scroll,
                dys,
                state.placed(screen).doc.lines(),
                state.placed(screen).doc.area.height as int,
            ),
            ..state.placed(screen).doc
        }),
        moved_by_all(state, dys, screen).dirty == state.dirty,
    decreases dys.len(),
{
    if dys.len() > 0 {
        lemma_moves_follow_steps(state, dys.drop_last(), screen);
    }
}

/// Moves of the selection ask nothing of the host: every one is answered
/// with `Keep`. From a scroll between the first line and the last scroll,
/// on a terminal that keeps its size, each moves the scroll by its `dy`,
/// clamped to that range.
pub proof fn lemma_moves_scroll(
    state: HelpModel,
    dys: Seq<int>,
    dy: int,
    screen: Screen,
    catalog: Seq<Seq<char>>,
)
    requires
        0 <= state.placed(screen).doc.scroll <= last_scroll(
            state.placed(screen).doc.lines(),
            state.placed(screen).doc.area.height as int,
        ),
    ensures
        help_step(ActionView::MoveSelection(dy), catalog) == StepView::Done(CmdResultView::Keep),
        moved_by_all(state, dys.push(dy), screen).doc.scroll == clamped(
            moved_by_all(state, dys, screen).doc.scroll + dy,
            0,
            last_scroll(
                state.placed(screen).doc.lines(),
                state.placed(screen).doc.area.height as int,
            ),
        ),
        0 <= moved_by_all(state, dys, screen).doc.scroll <= last_scroll(
            state.placed(screen).doc.lines(),
            state.placed(screen).doc.area.height as int,
        ),
{
    let placed = state.placed(screen).doc;
    lemma_moves_follow_steps(state, dys, screen);
    lemma_moves_follow_steps(state, dys.push(dy), screen);
    lemma_scroll_run_clamps(placed.scroll, dys, dy, placed.lines(), placed.area.height as int);
}

/// `Back` leaves the screen, whatever the screen and the catalog.
pub proof fn lemma_back_pops(catalog: Seq<Seq<char>>)
    ensures
        help_step(ActionView::Back, catalog) == StepView::Done(CmdResultView::PopState),
{
}

/// An invocation is searched for under its own text; the one entry found is
/// run with that text, and where none or several were found nothing is run
/// and the answer is a message that ends with the text.
pub proof fn lemma_invocation_resolves(
    invocation: Seq<char>,
    found: PrefixSearchResult,
    catalog: Seq<Seq<char>>,
)
    ensures
        help_step(ActionView::VerbInvocate(invocation), catalog) == StepView::<
            CmdResultView,
        >::Search(invocation),
        found matches PrefixSearchResult::Match(index) ==> help_found_step(invocation, found)
            == StepView::<CmdResultView>::Verb(index as nat, invocation),
        !(found is Match) ==> help_found_step(invocation, found) == StepView::Done(
            CmdResultView::DisplayError(verb_not_found_message(invocation)),
        ),
        invocation.is_suffix_of(verb_not_found_message(invocation)),
{
    let message = verb_not_found_message(invocation);
    assert(message.skip(message.len() - invocation.len()) =~= invocation);
}

/// A screen is cleared for once: drawing leaves a screen that queues no
/// clearing when it is drawn again, on whatever terminal. Only the host's
/// word that a queued clearing was not sent makes the clearing due again.
pub proof fn lemma_cleared_once(state: HelpModel, screen: Screen, again: Screen)
    ensures
        state.dirty ==> state.clearing() == clear_code(ClearType::All),
        state.displayed(screen).clearing() == Seq::<char>::empty(),
        state.displayed(screen).displayed(again).clearing() == Seq::<char>::empty(),
        state.displayed(screen).told(true).clearing() == Seq::<char>::empty(),
        state.dirty ==> state.displayed(screen).told(false).clearing() == clear_code(
            ClearType::All,
        ),
        state.dirty ==> state.displayed(screen).displayed(again).told(false).dirty,
        !state.dirty && !state.clearing_queued ==> !state.displayed(screen).told(false).dirty,
{
}

/// To place the document is idempotent: on a terminal that kept its size
/// a second placing changes nothing.
pub proof fn lemma_placed_idempotent(state: HelpModel, screen: Screen)
    ensures
        state.placed(screen).placed(screen) == state.placed(screen),
        state.doc.area == help_area(screen.width, screen.height) ==> state.placed(screen) == state,
{
}

/// No help screen ever waits for a task, whatever was applied to it and
/// however it was drawn: a host that asks first finds nothing to do, and
/// nothing can meet what `do_pending_task` requires.
pub proof fn lemma_help_never_pending(state: HelpState)
    ensures
        !state.pending(),
{
}

} // verus!
