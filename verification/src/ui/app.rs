//! The viewer: the captured requests, the cursor over them, and how both
//! change with each event.
use tokio::sync::mpsc::UnboundedReceiver;
use vstd::prelude::*;
use crate::request::CapturedRequest;

verus! {

#[verifier::external_type_specification]
#[verifier::external_body]
#[verifier::reject_recursive_types(T)]
pub struct ExUnboundedReceiver<T>(tokio::sync::mpsc::UnboundedReceiver<T>);

/// How long the viewer waits for a key before it redraws, in milliseconds.
pub const KEY_WAIT_MILLIS: u64 = 100;

/// How many lines a page key scrolls the detail pane.
pub const PAGE_LINES: usize = 5;

/// A key of the keyboard, as far as the viewer tells keys apart.
#[derive(Clone, Copy, Debug)]
pub enum Key {
    Char(char),
    Esc,
    Enter,
    Up,
    Down,
    PageUp,
    PageDown,
    Other,
}

/// What happened to a key.
#[derive(Clone, Copy, Debug)]
pub enum KeyKind {
    Press,
    Repeat,
    Release,
}

/// What the keyboard had to say within the wait.
#[derive(Clone, Copy, Debug)]
pub enum Keyboard {
    /// The keyboard could not be asked.
    Failed,
    /// Nothing happened within the wait.
    Quiet,
    /// A key event arrived.
    Key(Key, KeyKind),
    /// Something arrived that is no key event, or could not be read.
    Other,
}

/// An event that the viewer reacts to.
#[derive(Debug)]
pub enum InputEvent {
    Key(Key),
    NewRequest(CapturedRequest),
    Tick,
}

/// What the polling loop does after it has looked at the channel.
#[derive(Debug)]
pub enum PollStep {
    /// Hand this event to the viewer.
    Deliver(InputEvent),
    /// Wait for the keyboard, at most `KEY_WAIT_MILLIS`.
    AwaitKey,
}

/// The state of the viewer as plain mathematical values.
pub ghost struct ViewerState {
    /// Captured requests, newest first.
    pub history: Seq<CapturedRequest>,
    pub selected_index: int,
    pub scroll_offset: int,
    pub detail_scroll: int,
    pub should_quit: bool,
    pub listening_address: Seq<char>,
    pub body_expanded: bool,
}

impl ViewerState {
    /// Validity: the cursor is on a request, or at 0 where there is none, and
    /// the scroll positions are machine-sized.
    pub open spec fn wf(self) -> bool {
        &&& 0 <= self.selected_index
        &&& self.selected_index < self.history.len() || (self.history.len() == 0
            && self.selected_index == 0)
        &&& 0 <= self.scroll_offset <= usize::MAX
        &&& 0 <= self.detail_scroll <= usize::MAX
    }

    /// The state at startup: nothing captured, nothing selected.
    pub open spec fn initial(listening_address: Seq<char>) -> ViewerState {
        ViewerState {
            history: Seq::empty(),
            selected_index: 0,
            scroll_offset: 0,
            detail_scroll: 0,
            should_quit: false,
            listening_address,
            body_expanded: false,
        }
    }

    /// The request under the cursor.
    pub open spec fn selected(self) -> Option<CapturedRequest> {
        if 0 <= self.selected_index < self.history.len() {
            Some(self.history[self.selected_index])
        } else {
            None
        }
    }

    /// A new capture goes to the front. A cursor that is not at the top moves
    /// down with the request it is on.
    pub open spec fn with_capture(self, request: CapturedRequest) -> ViewerState {
        ViewerState {
            history: seq![request] + self.history,
            selected_index: if self.selected_index > 0 {
                self.selected_index + 1
            } else {
                self.selected_index
            },
            ..self
        }
    }

    /// All of `requests` captured one after another, the first of them first.
    pub open spec fn with_captures(self, requests: Seq<CapturedRequest>) -> ViewerState
        decreases requests.len(),
    {
        if requests.len() == 0 {
            self
        } else {
            self.with_captures(requests.drop_last()).with_capture(requests.last())
        }
    }

    /// The cursor moves up by one, unless it is at the top.
    pub open spec fn selection_up(self) -> ViewerState {
        if self.selected_index > 0 {
            ViewerState { selected_index: self.selected_index - 1, detail_scroll: 0, ..self }
        } else {
            self
        }
    }

    /// The cursor moves down by one, unless it is on the last request.
    pub open spec fn selection_down(self) -> ViewerState {
        if self.selected_index < self.history.len() - 1 {
            ViewerState { selected_index: self.selected_index + 1, detail_scroll: 0, ..self }
        } else {
            self
        }
    }

    /// The detail pane scrolls up by one line, unless it is at the top.
    pub open spec fn detail_up(self) -> ViewerState {
        if self.detail_scroll > 0 {
            ViewerState { detail_scroll: self.detail_scroll - 1, ..self }
        } else {
            self
        }
    }

    /// The detail pane scrolls down by one line. The position has no limit
    /// but the largest number the machine can hold.
    pub open spec fn detail_down(self) -> ViewerState {
        if self.detail_scroll < usize::MAX {
            ViewerState { detail_scroll: self.detail_scroll + 1, ..self }
        } else {
            self
        }
    }

    /// The detail pane scrolls up by a page, stopping at the top.
    pub open spec fn page_up(self) -> ViewerState {
        ViewerState {
            detail_scroll: if self.detail_scroll >= PAGE_LINES {
                self.detail_scroll - PAGE_LINES
            } else {
                0
            },
            ..self
        }
    }

    /// The detail pane scrolls down by a page. The position has no limit but
    /// the largest number the machine can hold.
    pub open spec fn page_down(self) -> ViewerState {
        ViewerState {
            detail_scroll: if self.detail_scroll + PAGE_LINES <= usize::MAX {
                self.detail_scroll + PAGE_LINES
            } else {
                usize::MAX as int
            },
            ..self
        }
    }

    /// The history is emptied and cursor and scroll positions go back to 0.
    pub open spec fn cleared(self) -> ViewerState {
        ViewerState {
            history: Seq::empty(),
            selected_index: 0,
            scroll_offset: 0,
            detail_scroll: 0,
            ..self
        }
    }

    /// The body is shown in full if it was cut short, and cut short if it was
    /// shown in full.
    pub open spec fn expansion_toggled(self) -> ViewerState {
        ViewerState { body_expanded: !self.body_expanded, ..self }
    }

    /// The viewer is asked to end.
    pub open spec fn quitting(self) -> ViewerState {
        ViewerState { should_quit: true, ..self }
    }

    /// The state after a key press.
    pub open spec fn after_key(self, key: Key) -> ViewerState {
        match key {
            Key::Char(c) => if c == 'q' {
                self.quitting()
            } else if c == 'c' {
                self.cleared()
            } else if c == 'k' {
                self.selection_up()
            } else if c == 'j' {
                self.selection_down()
            } else {
                self
            },
            Key::Esc => self.quitting(),
            Key::Up => self.selection_up(),
            Key::Down => self.selection_down(),
            Key::Enter => self.expansion_toggled(),
            Key::PageUp => self.page_up(),
            Key::PageDown => self.page_down(),
            Key::Other => self,
        }
    }

    /// The state after an event. A tick changes nothing.
    pub open spec fn after(self, event: InputEvent) -> ViewerState {
        match event {
            InputEvent::Key(key) => self.after_key(key),
            InputEvent::NewRequest(request) => self.with_capture(request),
            InputEvent::Tick => self,
        }
    }
}

/// What the polling loop does once it has looked at the channel: a pending
/// capture is delivered at once, and only without one is the keyboard asked.
pub open spec fn step_after_receive(received: Option<CapturedRequest>) -> PollStep {
    match received {
        Some(request) => PollStep::Deliver(InputEvent::NewRequest(request)),
        None => PollStep::AwaitKey,
    }
}

/// The event for what the keyboard said: a pressed key is that key's event,
/// a keyboard that could not be asked gives no event, anything else is a tick.
pub open spec fn event_after_keyboard(keyboard: Keyboard) -> Option<InputEvent> {
    match keyboard {
        Keyboard::Failed => None,
        Keyboard::Quiet => Some(InputEvent::Tick),
        Keyboard::Key(key, kind) => match kind {
            KeyKind::Press => Some(InputEvent::Key(key)),
            KeyKind::Repeat => Some(InputEvent::Tick),
            KeyKind::Release => Some(InputEvent::Tick),
        },
        Keyboard::Other => Some(InputEvent::Tick),
    }
}

/// Every transition keeps the state valid: whatever the event, the cursor
/// ends on a request, or at 0 where there is none.
pub proof fn lemma_transitions_keep_validity(state: ViewerState, event: InputEvent)
    requires
        state.wf(),
    ensures
        state.after(event).wf(),
{
}

/// Captures arrive newest first: after capturing `requests` in order, the
/// history is those requests in reverse, followed by what was there before.
pub proof fn lemma_history_newest_first(state: ViewerState, requests: Seq<CapturedRequest>)
    ensures
        state.with_captures(requests).history == requests.reverse() + state.history,
    decreases requests.len(),
{
    if requests.len() == 0 {
        assert(requests.reverse() + state.history =~= state.history);
    } else {
        lemma_history_newest_first(state, requests.drop_last());
        assert(seq![requests.last()] + (requests.drop_last().reverse() + state.history)
            =~= requests.reverse() + state.history);
    }
}

/// A new capture does not move the selection off its request: a cursor below
/// the top goes down by one and is on the same request as before.
pub proof fn lemma_selection_stays_on_request(state: ViewerState, request: CapturedRequest)
    requires
        state.wf(),
        state.selected_index > 0,
    ensures
        state.with_capture(request).selected_index == state.selected_index + 1,
        state.with_capture(request).selected() == state.selected(),
        state.with_capture(request).selected() is Some,
{
}

/// A cursor at the top stays at the top, where the new capture now is.
pub proof fn lemma_top_selection_sees_newest(state: ViewerState, request: CapturedRequest)
    requires
        state.selected_index == 0,
    ensures
        state.with_capture(request).selected_index == 0,
        state.with_capture(request).selected() == Some(request),
{
}

/// Clearing twice is clearing once, and clearing an empty history leaves the
/// cursor at 0 and changes nothing but the scroll positions.
pub proof fn lemma_clear_idempotent(state: ViewerState)
    ensures
        state.cleared().cleared() == state.cleared(),
        state.cleared().selected_index == 0,
        state.cleared().history.len() == 0,
        state.cleared().wf(),
        state.history.len() == 0 && state.wf() ==> state.cleared() == (ViewerState {
            scroll_offset: 0,
            detail_scroll: 0,
            ..state
        }),
{
    assert(state.cleared().history =~= Seq::<CapturedRequest>::empty());
    if state.history.len() == 0 {
        assert(state.history =~= Seq::<CapturedRequest>::empty());
    }
}

/// Whenever a key moves the cursor, the detail pane starts again at its top,
/// and whether the body is expanded stays as it was.
pub proof fn lemma_selection_change_resets_scroll(state: ViewerState, key: Key)
    ensures
        state.after_key(key).selected_index != state.selected_index ==> state.after_key(
            key,
        ).detail_scroll == 0,
        !(key is Enter) ==> state.after_key(key).body_expanded == state.body_expanded,
{
}

/// The viewer: captured requests newest first, a cursor, and display options.
#[derive(Debug)]
pub struct App {
    pub requests: Vec<CapturedRequest>,
    pub selected_index: usize,
    pub scroll_offset: usize,
    pub detail_scroll: usize,
    pub should_quit: bool,
    pub listening_address: String,
    pub body_expanded: bool,
}

impl View for App {
    type V = ViewerState;

    open spec fn view(&self) -> ViewerState {
        ViewerState {
            history: self.requests@,
            selected_index: self.selected_index as int,
            scroll_offset: self.scroll_offset as int,
            detail_scroll: self.detail_scroll as int,
            should_quit: self.should_quit,
            listening_address: self.listening_address@,
            body_expanded: self.body_expanded,
        }
    }
}

impl App {
    /// The viewer at startup.
    pub fn new(listening_address: String) -> (app: App)
        ensures
            app@ == ViewerState::initial(listening_address@),
            app.listening_address == listening_address,
            app@.wf(),
    {
        App {
            requests: Vec::new(),
            selected_index: 0,
            scroll_offset: 0,
            detail_scroll: 0,
            should_quit: false,
            listening_address,
            body_expanded: false,
        }
    }

    /// Takes in a new capture.
    pub fn add_request(&mut self, request: CapturedRequest)
        requires
            old(self)@.wf(),
        ensures
            final(self)@ == old(self)@.with_capture(request),
            final(self)@.wf(),
            final(self).listening_address == old(self).listening_address,
    {
        self.requests.insert(0, request);
        assert(self.requests@ =~= seq![request] + old(self).requests@);
        assert(self.requests.len() == self.requests@.len());
        if self.selected_index > 0 {
            self.selected_index += 1;
        }
    }

    /// Whether the cursor is where it may be: on a request, or at 0 where
    /// there is none.
    pub fn is_valid(&self) -> (valid: bool)
        ensures
            valid == self@.wf(),
    {
        self.selected_index < self.requests.len() || (self.requests.len() == 0
            && self.selected_index == 0)
    }

    /// The request under the cursor, if there is one.
    pub fn selected_request(&self) -> (selected: Option<&CapturedRequest>)
        ensures
            match selected {
                Some(request) => self@.selected() == Some(*request),
                None => self@.selected() is None,
            },
    {
        if self.selected_index < self.requests.len() {
            Some(&self.requests[self.selected_index])
        } else {
            None
        }
    }

    /// Moves the cursor up by one.
    pub fn move_selection_up(&mut self)
        ensures
            final(self)@ == old(self)@.selection_up(),
            final(self).requests == old(self).requests,
            final(self).listening_address == old(self).listening_address,
    {
        if self.selected_index > 0 {
            self.selected_index -= 1;
            self.detail_scroll = 0;
        }
    }

    /// Moves the cursor down by one.
    pub fn move_selection_down(&mut self)
        ensures
            final(self)@ == old(self)@.selection_down(),
            final(self).requests == old(self).requests,
            final(self).listening_address == old(self).listening_address,
    {
        if self.requests.len() != 0 && self.selected_index < self.requests.len() - 1 {
            self.selected_index += 1;
            self.detail_scroll = 0;
        }
    }

    /// Scrolls the detail pane up by one line.
    pub fn scroll_detail_up(&mut self)
        ensures
            final(self)@ == old(self)@.detail_up(),
            final(self).requests == old(self).requests,
            final(self).listening_address == old(self).listening_address,
    {
        if self.detail_scroll > 0 {
            self.detail_scroll -= 1;
        }
    }

    /// Scrolls the detail pane down by one line.
    pub fn scroll_detail_down(&mut self)
        ensures
            final(self)@ == old(self)@.detail_down(),
            final(self).requests == old(self).requests,
            final(self).listening_address == old(self).listening_address,
    {
        if self.detail_scroll < usize::MAX {
            self.detail_scroll += 1;
        }
    }

    /// Scrolls the detail pane up by a page.
    pub fn page_detail_up(&mut self)
        ensures
            final(self)@ == old(self)@.page_up(),
            final(self).requests == old(self).requests,
            final(self).listening_address == old(self).listening_address,
    {
        let mut done: usize = 0;
        while done < PAGE_LINES
            invariant
                done <= PAGE_LINES,
                self.requests == old(self).requests,
                self.listening_address == old(self).listening_address,
                self@ == (ViewerState {
                    detail_scroll: if old(self).detail_scroll >= done {
                        old(self).detail_scroll - done
                    } else {
                        0
                    },
                    ..old(self)@
                }),
            decreases PAGE_LINES - done,
        {
            self.scroll_detail_up();
            done += 1;
        }
    }

    /// Scrolls the detail pane down by a page.
    pub fn page_detail_down(&mut self)
        ensures
            final(self)@ == old(self)@.page_down(),
            final(self).requests == old(self).requests,
            final(self).listening_address == old(self).listening_address,
    {
        let mut done: usize = 0;
        while done < PAGE_LINES
            invariant
                done <= PAGE_LINES,
                self.requests == old(self).requests,
                self.listening_address == old(self).listening_address,
                self@ == (ViewerState {
                    detail_scroll: if old(self).detail_scroll + done <= usize::MAX {
                        old(self).detail_scroll + done
                    } else {
                        usize::MAX as int
                    },
                    ..old(self)@
                }),
            decreases PAGE_LINES - done,
        {
            self.scroll_detail_down();
            done += 1;
        }
    }

    /// Forgets every captured request.
    pub fn clear_requests(&mut self)
        ensures
            final(self)@ == old(self)@.cleared(),
            final(self)@.wf(),
            final(self).listening_address == old(self).listening_address,
    {
        self.requests.clear();
        self.selected_index = 0;
        self.scroll_offset = 0;
        self.detail_scroll = 0;
    }

    /// Switches between the full body and the body cut short.
    pub fn toggle_body_expanded(&mut self)
        ensures
            final(self)@ == old(self)@.expansion_toggled(),
            final(self).requests == old(self).requests,
            final(self).listening_address == old(self).listening_address,
    {
        self.body_expanded = !self.body_expanded;
    }

    /// Reacts to a key press.
    pub fn handle_key(&mut self, key: Key)
        ensures
            final(self)@ == old(self)@.after_key(key),
            old(self)@.wf() ==> final(self)@.wf(),
            final(self).listening_address == old(self).listening_address,
    {
        match key {
            Key::Char(c) => {
                if c == 'q' {
                    self.should_quit = true;
                } else if c == 'c' {
                    self.clear_requests();
                } else if c == 'k' {
                    self.move_selection_up();
                } else if c == 'j' {
                    self.move_selection_down();
                }
            },
            Key::Esc => {
                self.should_quit = true;
            },
            Key::Up => self.move_selection_up(),
            Key::Down => self.move_selection_down(),
            Key::Enter => self.toggle_body_expanded(),
            Key::PageUp => self.page_detail_up(),
            Key::PageDown => self.page_detail_down(),
            Key::Other => {},
        }
    }

    /// Reacts to an event: a key press, a new capture, or a tick.
    pub fn handle_input(&mut self, event: InputEvent)
        requires
            old(self)@.wf(),
        ensures
            final(self)@ == old(self)@.after(event),
            final(self)@.wf(),
            final(self).listening_address == old(self).listening_address,
    {
        match event {
            InputEvent::Key(key) => self.handle_key(key),
            InputEvent::NewRequest(request) => self.add_request(request),
            InputEvent::Tick => {},
        }
    }

    /// One turn of the viewer's loop after drawing: reacts to the event, if
    /// there is one, and says whether the loop goes on.
    pub fn advance(&mut self, event: Option<InputEvent>) -> (running: bool)
        requires
            old(self)@.wf(),
        ensures
            final(self)@ == match event {
                Some(e) => old(self)@.after(e),
                None => old(self)@,
            },
            final(self)@.wf(),
            running == !final(self)@.should_quit,
    {
        match event {
            Some(e) => self.handle_input(e),
            None => {},
        }
        !self.should_quit
    }
}

/// `tokio`'s `UnboundedReceiver::try_recv`: the oldest record that waits in
/// the channel, without waiting for one. Nothing is promised of the outcome;
/// an empty and a closed channel both give nothing.
#[verifier::external_body]
fn try_receive(channel: &mut UnboundedReceiver<CapturedRequest>) -> (received: Option<
    CapturedRequest,
>) {
    channel.try_recv().ok()
}

/// Looks at the channel, without waiting, and says what the polling loop
/// does next: deliver the capture that waited, or turn to the keyboard.
pub fn poll_channel(channel: &mut UnboundedReceiver<CapturedRequest>) -> (step: PollStep)
    ensures
        step matches PollStep::Deliver(event) ==> event is NewRequest,
{
    on_receive(try_receive(channel))
}

/// What the polling loop does once it has looked at the channel.
pub fn on_receive(received: Option<CapturedRequest>) -> (step: PollStep)
    ensures
        step == step_after_receive(received),
{
    match received {
        Some(request) => PollStep::Deliver(InputEvent::NewRequest(request)),
        None => PollStep::AwaitKey,
    }
}

/// The event for what the keyboard said within the wait.
pub fn on_keyboard(keyboard: Keyboard) -> (event: Option<InputEvent>)
    ensures
        event == event_after_keyboard(keyboard),
{
    match keyboard {
        Keyboard::Failed => None,
        Keyboard::Quiet => Some(InputEvent::Tick),
        Keyboard::Key(key, kind) => match kind {
            KeyKind::Press => Some(InputEvent::Key(key)),
            KeyKind::Repeat => Some(InputEvent::Tick),
            KeyKind::Release => Some(InputEvent::Tick),
        },
        Keyboard::Other => Some(InputEvent::Tick),
    }
}

} // verus!
