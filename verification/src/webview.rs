//! The web view: its lifecycle, its user data and the result that travels
//! from handlers to the event loop.

use std::collections::VecDeque;
use vstd::prelude::*;
use vstd::string::{StringExecFns, StringSliceAdditionalSpecFns};
use vstd::utf8::{decode_utf8, encode_utf8, valid_utf8};
use crate::bridge::{decode_message, Invocation};
use crate::color::Color;
use crate::command::{Command, CommandView};
use crate::error::{outcome_view, Error, ErrorView, WVResult};
use crate::escape::{escape, js_literal};
use crate::native::{first_nul, has_nul, lemma_first_nul, NativeString};
use crate::queue::DispatchQueue;
use crate::strings::lossy_text;

verus! {

/// A script that takes CSS text as its one argument and adds it to the
/// page as a new style element.
pub const CSS_INJECT_FUNCTION: &'static str = "(function(e){var \
    t=document.createElement('style'),d=document.head||document.\
    getElementsByTagName('head')[0];t.setAttribute('type','text/\
    css'),t.styleSheet?t.styleSheet.cssText=e:t.appendChild(document.\
    createTextNode(e)),d.appendChild(t)})";

/// The script that injects `css`: the injecting function applied to `css`
/// as a string literal.
pub open spec fn css_script(css: Seq<char>) -> Seq<char> {
    CSS_INJECT_FUNCTION@ + seq!['('] + js_literal(css) + seq![')']
}

/// Where a view stands between its creation and its end.
#[derive(Debug, Clone, Copy, PartialEq, Eq, Structural)]
pub enum Lifecycle {
    /// The window exists and nothing has asked it to go.
    Open,
    /// An exit was requested or the window was closed; the view is not yet
    /// torn down.
    Closing,
    /// The view is torn down.
    Closed,
}

impl Lifecycle {
    /// How far along its life a view is.
    pub open spec fn rank(self) -> nat {
        match self {
            Lifecycle::Open => 0,
            Lifecycle::Closing => 1,
            Lifecycle::Closed => 2,
        }
    }
}

/// What the event loop does after one pump iteration of `WebView::run`.
#[derive(Debug, PartialEq, Eq)]
pub enum Flow {
    /// Pump again.
    Continue,
    /// The window is gone: tear the view down and hand out the user data.
    Finish,
    /// A handler or a dispatched closure failed: stop with its error.
    Fail(Error),
}

/// The mathematical value of a [`Flow`].
pub ghost enum FlowView {
    Continue,
    Finish,
    Fail(ErrorView),
}

impl View for Flow {
    type V = FlowView;

    open spec fn view(&self) -> FlowView {
        match self {
            Flow::Continue => FlowView::Continue,
            Flow::Finish => FlowView::Finish,
            Flow::Fail(e) => FlowView::Fail(e@),
        }
    }
}

/// What a teardown leaves to the host, in the order in which the host
/// deals with it: the commands for the adapter, then the user data, then
/// the closures that were still queued, which are released without being
/// run.
pub struct Teardown<T, F> {
    pub commands: Vec<Command>,
    pub user_data: T,
    pub released: Vec<F>,
}

/// The commands of a teardown: ask the loop to end, then destroy.
pub open spec fn teardown_commands() -> Seq<CommandView> {
    seq![CommandView::Exit, CommandView::Destroy]
}

/// The values of `commands`, one for one.
pub open spec fn command_views(commands: Seq<Command>) -> Seq<CommandView> {
    commands.map_values(|c: Command| c@)
}

/// The mathematical value of a [`WebView`].
pub ghost struct WebViewState<T, I> {
    /// The user data; `None` once the view is torn down.
    pub user_data: Option<T>,
    /// Whether an exit was requested or the window was reported closed.
    pub closing: bool,
    /// The invoke handler; `None` while it runs and once the view is torn
    /// down.
    pub invoke_handler: Option<I>,
    /// The messages that arrived while the handler was running and wait
    /// for it, oldest first.
    pub waiting: Seq<Seq<char>>,
    /// The pending result: the last error that a handler or a dispatched
    /// closure returned since a pump iteration last handed one out, and
    /// `Ok` if there is none.
    pub pending: Result<(), ErrorView>,
}

/// The texts of `messages`, one for one.
pub open spec fn texts(messages: Seq<String>) -> Seq<Seq<char>> {
    messages.map_values(|m: String| m@)
}

/// The last error among `results`, if any of them is an error.
pub open spec fn last_error(results: Seq<Result<(), ErrorView>>) -> Option<ErrorView>
    decreases results.len(),
{
    if results.len() == 0 {
        None
    } else {
        match results.last() {
            Err(e) => Some(e),
            Ok(_) => last_error(results.drop_last()),
        }
    }
}

impl<T, I> WebViewState<T, I> {
    /// Where the view stands.
    pub open spec fn lifecycle(self) -> Lifecycle {
        if self.user_data is None {
            Lifecycle::Closed
        } else if self.closing {
            Lifecycle::Closing
        } else {
            Lifecycle::Open
        }
    }

    /// Whether the view is torn down.
    pub open spec fn is_closed(self) -> bool {
        self.user_data is None
    }

    /// A view as it is created.
    pub open spec fn fresh(user_data: T, invoke_handler: I) -> Self {
        WebViewState {
            user_data: Some(user_data),
            closing: false,
            invoke_handler: Some(invoke_handler),
            waiting: Seq::empty(),
            pending: Ok(()),
        }
    }

    /// The state after an exit request.
    pub open spec fn exiting(self) -> Self {
        WebViewState { closing: true, ..self }
    }

    /// The state after `result` came back from a handler or a closure. An
    /// error becomes the pending result, in place of an earlier one. A
    /// success changes nothing: it does not hide an error that is pending.
    /// On a view that is torn down nothing is kept.
    pub open spec fn delivered(self, result: Result<(), ErrorView>) -> Self {
        if self.is_closed() {
            self
        } else {
            match result {
                Err(e) => WebViewState { pending: Err(e), ..self },
                Ok(_) => self,
            }
        }
    }

    /// The state after the results `results` came back, in that order and
    /// with no pump iteration between them.
    pub open spec fn delivered_all(self, results: Seq<Result<(), ErrorView>>) -> Self
        decreases results.len(),
    {
        if results.len() == 0 {
            self
        } else {
            self.delivered_all(results.drop_last()).delivered(results.last())
        }
    }

    /// Whether a message that arrives now is delivered at once: the view is
    /// not torn down and the handler is not out on another call.
    pub open spec fn delivers(self) -> bool {
        !self.is_closed() && self.invoke_handler is Some
    }

    /// The state after `message` arrived: the handler is handed out for it,
    /// or, while the handler is out, the message waits behind those that
    /// wait already. A view that is torn down keeps nothing.
    pub open spec fn received(self, message: Seq<char>) -> Self {
        if self.is_closed() {
            self
        } else if self.invoke_handler is Some {
            WebViewState { invoke_handler: None, ..self }
        } else {
            WebViewState { waiting: self.waiting.push(message), ..self }
        }
    }

    /// Whether the end of a call of the handler starts the next: the view
    /// is not torn down and a message waits.
    pub open spec fn redelivers(self) -> bool {
        !self.is_closed() && self.waiting.len() > 0
    }

    /// The state after a call of the handler ended with `result`: the result
    /// is delivered, and the handler comes back, unless a message waits,
    /// for which it is handed out again at once. On a view that is torn
    /// down nothing is kept.
    pub open spec fn finished(self, handler: I, result: Result<(), ErrorView>) -> Self {
        if self.is_closed() {
            self
        } else if self.waiting.len() > 0 {
            WebViewState {
                invoke_handler: None,
                waiting: self.waiting.drop_first(),
                ..self.delivered(result)
            }
        } else {
            WebViewState { invoke_handler: Some(handler), ..self.delivered(result) }
        }
    }

    /// Whether a pump iteration finds the window gone: the adapter reported
    /// a status other than zero, or an exit was requested before.
    pub open spec fn is_over(self, status: int) -> bool {
        status != 0 || self.closing
    }

    /// What a pump iteration answers when the adapter reported `status`:
    /// nothing once the window is gone, and the pending result otherwise.
    pub open spec fn step_answer(self, status: int) -> Option<Result<(), ErrorView>> {
        if self.is_over(status) {
            None
        } else {
            Some(self.pending)
        }
    }

    /// The state after a pump iteration for which the adapter reported
    /// `status`: a window that is gone puts the view on its way out, and a
    /// pending result that was handed to the caller is cleared.
    pub open spec fn stepped(self, status: int) -> Self {
        if self.is_over(status) {
            WebViewState { closing: true, ..self }
        } else {
            WebViewState { pending: Ok(()), ..self }
        }
    }

    /// What the loop does after a pump iteration with `status`.
    pub open spec fn flow(self, status: int) -> FlowView {
        match self.step_answer(status) {
            None => FlowView::Finish,
            Some(Ok(_)) => FlowView::Continue,
            Some(Err(e)) => FlowView::Fail(e),
        }
    }

    /// The state after a teardown.
    pub open spec fn torn_down(self) -> Self {
        WebViewState {
            user_data: None,
            closing: true,
            invoke_handler: None,
            waiting: Seq::empty(),
            pending: Ok(()),
        }
    }
}

/// What a teardown asks of the adapter in this state: nothing of a view
/// that is torn down already.
pub open spec fn teardown_request<T, I>(state: WebViewState<T, I>) -> Seq<CommandView> {
    if state.is_closed() {
        Seq::empty()
    } else {
        teardown_commands()
    }
}

/// The state after a teardown was asked for, whatever the state before.
pub open spec fn after_teardown<T, I>(state: WebViewState<T, I>) -> WebViewState<T, I> {
    if state.is_closed() {
        state
    } else {
        state.torn_down()
    }
}

/// A view only moves forward, from open to closing to closed: no operation
/// takes it back.
pub proof fn lemma_lifecycle_moves_forward<T, I>(
    state: WebViewState<T, I>,
    status: int,
    result: Result<(), ErrorView>,
    message: Seq<char>,
    handler: I,
)
    ensures
        state.lifecycle().rank() <= state.exiting().lifecycle().rank(),
        state.lifecycle().rank() <= state.stepped(status).lifecycle().rank(),
        state.lifecycle().rank() == state.delivered(result).lifecycle().rank(),
        state.lifecycle().rank() == state.received(message).lifecycle().rank(),
        state.lifecycle().rank() == state.finished(handler, result).lifecycle().rank(),
        state.lifecycle().rank() <= after_teardown(state).lifecycle().rank(),
        after_teardown(state).lifecycle() == Lifecycle::Closed,
{
}

/// The pending result is the last error: after any run of results, it is
/// the last error among them, and what it was before if none of them is an
/// error.
pub proof fn lemma_pending_is_last_error<T, I>(
    state: WebViewState<T, I>,
    results: Seq<Result<(), ErrorView>>,
)
    requires
        !state.is_closed(),
    ensures
        !state.delivered_all(results).is_closed(),
        state.delivered_all(results) == (WebViewState {
            pending: match last_error(results) {
                Some(e) => Err(e),
                None => state.pending,
            },
            ..state
        }),
    decreases results.len(),
{
    if results.len() > 0 {
        lemma_pending_is_last_error(state, results.drop_last());
    }
}

/// An error that occurred is not masked by a later success: when the
/// results that came back since the last pump iteration hold an error, the
/// next iteration of a view that lives hands out the last such error, and
/// the one after it finds none pending.
pub proof fn lemma_step_surfaces_the_last_error<T, I>(
    state: WebViewState<T, I>,
    results: Seq<Result<(), ErrorView>>,
)
    requires
        !state.is_closed(),
        !state.closing,
        last_error(results) is Some,
    ensures
        state.delivered_all(results).step_answer(0) == Some(
            Err::<(), ErrorView>(last_error(results)->0),
        ),
        state.delivered_all(results).stepped(0).step_answer(0) == Some(Ok::<(), ErrorView>(())),
{
    lemma_pending_is_last_error(state, results);
}

/// No message is lost to a running handler: a message that arrives while
/// the handler is out waits, and the end of that call hands the handler out
/// again for the message that has waited longest.
pub proof fn lemma_waiting_message_is_delivered<T, I>(
    state: WebViewState<T, I>,
    message: Seq<char>,
    handler: I,
    result: Result<(), ErrorView>,
)
    requires
        !state.is_closed(),
        state.invoke_handler is None,
    ensures
        !state.delivers(),
        state.received(message).waiting == state.waiting.push(message),
        state.received(message).redelivers(),
        state.received(message).finished(handler, result).invoke_handler is None,
        state.waiting.len() == 0 ==> state.received(message).finished(handler, result).waiting
            == Seq::<Seq<char>>::empty(),
{
    assert(state.waiting.len() == 0 ==> state.waiting.push(message).drop_first()
        =~= Seq::<Seq<char>>::empty());
}

/// Asking for an exit twice is asking once: the second request leaves the
/// view as the first left it, and neither tears anything down.
pub proof fn lemma_exit_is_idempotent<T, I>(state: WebViewState<T, I>)
    ensures
        state.exiting().exiting() == state.exiting(),
        state.exiting().user_data == state.user_data,
        state.exiting().is_closed() == state.is_closed(),
{
}

/// A view is torn down once: whatever the state, a second teardown asks
/// nothing of the adapter and leaves the view as the first left it.
pub proof fn lemma_teardown_runs_once<T, I>(state: WebViewState<T, I>)
    ensures
        after_teardown(state).is_closed(),
        teardown_request(after_teardown(state)) == Seq::<CommandView>::empty(),
        after_teardown(after_teardown(state)) == after_teardown(state),
{
}

/// A web view: the host's side of one native window with an engine in it.
///
/// `T` is the user data, which the view owns until it is torn down, and `I`
/// the invoke handler.
pub struct WebView<T, I> {
    user_data: Option<T>,
    closing: bool,
    invoke_handler: Option<I>,
    waiting: VecDeque<String>,
    result: WVResult,
}

impl<T, I> View for WebView<T, I> {
    type V = WebViewState<T, I>;

    closed spec fn view(&self) -> WebViewState<T, I> {
        WebViewState {
            user_data: self.user_data,
            closing: self.closing,
            invoke_handler: self.invoke_handler,
            waiting: texts(self.waiting@),
            pending: outcome_view(self.result),
        }
    }
}

impl<T, I> WebView<T, I> {
    /// Makes the view once the adapter has tried to create the window.
    /// Fails with [`Error::Initialization`] exactly when the window was not
    /// created; the user data and the handler are then dropped.
    pub fn new(user_data: T, invoke_handler: I, created: bool) -> (r: Result<WebView<T, I>, Error>)
        ensures
            created ==> r is Ok && r->Ok_0@ == WebViewState::fresh(user_data, invoke_handler),
            !created ==> r is Err && r->Err_0@ == ErrorView::Initialization,
    {
        if !created {
            return Err(Error::Initialization);
        }
        let waiting: VecDeque<String> = VecDeque::new();
        assert(texts(waiting@) =~= Seq::<Seq<char>>::empty());
        Ok(
            WebView {
                user_data: Some(user_data),
                closing: false,
                invoke_handler: Some(invoke_handler),
                waiting,
                result: Ok(()),
            },
        )
    }

    /// Where the view stands.
    pub fn lifecycle(&self) -> (r: Lifecycle)
        ensures
            r == self@.lifecycle(),
    {
        if self.user_data.is_none() {
            Lifecycle::Closed
        } else if self.closing {
            Lifecycle::Closing
        } else {
            Lifecycle::Open
        }
    }

    /// Borrows the user data.
    pub fn user_data(&self) -> (r: &T)
        requires
            !self@.is_closed(),
        ensures
            Some(*r) == self@.user_data,
    {
        match &self.user_data {
            Some(data) => data,
            None => vstd::pervasive::unreached(),
        }
    }

    /// Borrows the user data mutably.
    pub fn user_data_mut(&mut self) -> (r: &mut T)
        requires
            !old(self)@.is_closed(),
        ensures
            Some(*r) == old(self)@.user_data,
            final(self)@ == (WebViewState { user_data: Some(*final(r)), ..old(self)@ }),
    {
        match &mut self.user_data {
            Some(data) => data,
            None => vstd::pervasive::unreached(),
        }
    }

    /// Requests a graceful end and gives the command that asks the adapter
    /// to end its loop. Nothing is torn down yet: the view is on its way out
    /// from now on, and the next pump iteration finds it so. Asking again
    /// changes nothing.
    pub fn exit(&mut self) -> (r: Command)
        requires
            !old(self)@.is_closed(),
        ensures
            r@ == CommandView::Exit,
            final(self)@ == old(self)@.exiting(),
    {
        self.closing = true;
        Command::Exit
    }

    /// The older name of [`WebView::exit`].
    pub fn terminate(&mut self) -> (r: Command)
        requires
            !old(self)@.is_closed(),
        ensures
            r@ == CommandView::Exit,
            final(self)@ == old(self)@.exiting(),
    {
        self.exit()
    }

    /// Gives the command that evaluates `js` in the page. Fails with
    /// [`Error::NulByte`] exactly when `js` holds a NUL byte, and with the
    /// position of the first one. Whether the engine then fails on the
    /// script is told by [`Command::outcome`].
    pub fn eval(&self, js: &str) -> (r: Result<Command, Error>)
        requires
            !self@.is_closed(),
        ensures
            match first_nul(js.spec_bytes()) {
                None => r is Ok && r->Ok_0@ == CommandView::Eval(js.spec_bytes()),
                Some(position) => r is Err && r->Err_0@ == ErrorView::NulByte(position),
            },
            r is Err <==> has_nul(js.spec_bytes()),
    {
        proof {
            lemma_first_nul(js.spec_bytes());
        }
        match NativeString::new(js) {
            Ok(script) => Ok(Command::Eval(script)),
            Err(e) => Err(e),
        }
    }

    /// Gives the command that adds `css` to the page as a style sheet, by
    /// evaluating [`css_script`]. Fails with [`Error::CssInjection`] exactly
    /// when that script holds a NUL byte. Whether the engine then fails on
    /// the script is told by [`Command::outcome`].
    pub fn inject_css(&self, css: &str) -> (r: Result<Command, Error>)
        requires
            !self@.is_closed(),
        ensures
            match first_nul(encode_utf8(css_script(css@))) {
                None => r is Ok && r->Ok_0@ == CommandView::InjectCss(
                    encode_utf8(css_script(css@)),
                ),
                Some(_) => r is Err && r->Err_0@ == ErrorView::CssInjection,
            },
    {
        let literal = escape(css);
        proof {
            reveal_strlit("(");
            reveal_strlit(")");
            assert("("@ =~= seq!['(']);
            assert(")"@ =~= seq![')']);
        }
        let script = String::from_str(CSS_INJECT_FUNCTION).concat("(").concat(
            literal.as_str(),
        ).concat(")");
        match NativeString::new(script.as_str()) {
            Ok(script) => Ok(Command::InjectCss(script)),
            Err(_) => Err(Error::CssInjection),
        }
    }

    /// Gives the command that sets the window's background color.
    pub fn set_color(&self, color: Color) -> (r: Command)
        requires
            !self@.is_closed(),
        ensures
            r@ == CommandView::SetColor(color),
    {
        Command::SetColor(color)
    }

    /// Gives the command that replaces the page by `html`. Fails with
    /// [`Error::NulByte`] exactly when `html` holds a NUL byte, and with the
    /// position of the first one.
    pub fn set_html(&self, html: &str) -> (r: Result<Command, Error>)
        requires
            !self@.is_closed(),
        ensures
            match first_nul(html.spec_bytes()) {
                None => r is Ok && r->Ok_0@ == CommandView::SetHtml(html.spec_bytes()),
                Some(position) => r is Err && r->Err_0@ == ErrorView::NulByte(position),
            },
            r is Err <==> has_nul(html.spec_bytes()),
    {
        proof {
            lemma_first_nul(html.spec_bytes());
        }
        match NativeString::new(html) {
            Ok(html) => Ok(Command::SetHtml(html)),
            Err(e) => Err(e),
        }
    }

    /// Gives the command that sets the title shown at the top of the
    /// window. Fails with [`Error::NulByte`] exactly when `title` holds a NUL
    /// byte, and with the position of the first one.
    pub fn set_title(&self, title: &str) -> (r: Result<Command, Error>)
        requires
            !self@.is_closed(),
        ensures
            match first_nul(title.spec_bytes()) {
                None => r is Ok && r->Ok_0@ == CommandView::SetTitle(title.spec_bytes()),
                Some(position) => r is Err && r->Err_0@ == ErrorView::NulByte(position),
            },
            r is Err <==> has_nul(title.spec_bytes()),
    {
        proof {
            lemma_first_nul(title.spec_bytes());
        }
        match NativeString::new(title) {
            Ok(title) => Ok(Command::SetTitle(title)),
            Err(e) => Err(e),
        }
    }

    /// Gives the command that enters or leaves fullscreen.
    pub fn set_fullscreen(&self, fullscreen: bool) -> (r: Command)
        requires
            !self@.is_closed(),
        ensures
            r@ == CommandView::SetFullscreen(fullscreen),
    {
        Command::SetFullscreen(fullscreen)
    }

    /// Gives the command that maximizes the window or restores it.
    pub fn set_maximized(&self, maximize: bool) -> (r: Command)
        requires
            !self@.is_closed(),
        ensures
            r@ == CommandView::SetMaximized(maximize),
    {
        Command::SetMaximized(maximize)
    }

    /// Gives the command that minimizes the window or restores it.
    pub fn set_minimized(&self, minimize: bool) -> (r: Command)
        requires
            !self@.is_closed(),
        ensures
            r@ == CommandView::SetMinimized(minimize),
    {
        Command::SetMinimized(minimize)
    }

    /// Gives the command that shows or hides the window.
    pub fn set_visible(&self, visible: bool) -> (r: Command)
        requires
            !self@.is_closed(),
        ensures
            r@ == CommandView::SetVisible(visible),
    {
        Command::SetVisible(visible)
    }

    /// Ends one pump iteration, for which the adapter reported `status`:
    /// zero while the window lives, anything else once it is gone. Gives
    /// `None` when the window is gone or an exit was requested, from then on
    /// at every call, and otherwise the pending result, which is cleared by
    /// being handed out.
    pub fn step(&mut self, status: i32) -> (r: Option<WVResult>)
        requires
            !old(self)@.is_closed(),
        ensures
            final(self)@ == old(self)@.stepped(status as int),
            match (r, old(self)@.step_answer(status as int)) {
                (Some(result), Some(expected)) => outcome_view(result) == expected,
                (None, None) => true,
                _ => false,
            },
    {
        if status != 0 || self.closing {
            self.closing = true;
            return None;
        }
        let mut result: WVResult = Ok(());
        core::mem::swap(&mut result, &mut self.result);
        Some(result)
    }

    /// Ends one pump iteration of a loop that runs the view to its end, and
    /// says how the loop goes on: again while results are fine, to the
    /// teardown once the window is gone, and no further after the first
    /// error.
    pub fn run(&mut self, status: i32) -> (r: Flow)
        requires
            !old(self)@.is_closed(),
        ensures
            final(self)@ == old(self)@.stepped(status as int),
            r@ == old(self)@.flow(status as int),
    {
        match self.step(status) {
            None => Flow::Finish,
            Some(Ok(_)) => Flow::Continue,
            Some(Err(e)) => Flow::Fail(e),
        }
    }

    /// Takes in `message` for the invoke handler. Where the handler is at
    /// hand, it is taken out of the view and given with the message, for the
    /// host to call it. While the handler is out on another call, the
    /// message waits and `None` is given; [`WebView::finish_invoke`] hands
    /// it out when its turn comes. A view that is torn down drops the
    /// message.
    pub fn begin_invoke(&mut self, message: String) -> (r: Option<Invocation<I>>)
        ensures
            final(self)@ == old(self)@.received(message@),
            r is Some <==> old(self)@.delivers(),
            r matches Some(invocation) ==> {
                &&& Some(invocation.handler) == old(self)@.invoke_handler
                &&& invocation.message@ == message@
            },
    {
        if self.user_data.is_none() {
            return None;
        }
        match self.invoke_handler.take() {
            Some(handler) => Some(Invocation { handler, message }),
            None => {
                proof {
                    assert(texts(self.waiting@.push(message)) =~= texts(self.waiting@).push(
                        message@,
                    ));
                }
                self.waiting.push_back(message);
                None
            },
        }
    }

    /// Receives the bytes of a message that the page sent: decodes them and
    /// takes the message in, as [`WebView::begin_invoke`] does.
    pub fn receive(&mut self, raw: &[u8]) -> (r: Option<Invocation<I>>)
        ensures
            final(self)@ == old(self)@.received(lossy_text(raw@)),
            valid_utf8(raw@) ==> final(self)@ == old(self)@.received(decode_utf8(raw@)),
            r is Some <==> old(self)@.delivers(),
            r matches Some(invocation) ==> {
                &&& Some(invocation.handler) == old(self)@.invoke_handler
                &&& invocation.message@ == lossy_text(raw@)
            },
    {
        self.begin_invoke(decode_message(raw))
    }

    /// Ends a call of the invoke handler: delivers what it returned, and
    /// puts the handler back. Where a message has waited for the handler,
    /// the handler is given out again at once, with the message that has
    /// waited longest, for the host to call it next. On a view that is torn
    /// down the handler and the result are dropped.
    pub fn finish_invoke(&mut self, handler: I, result: WVResult) -> (r: Option<Invocation<I>>)
        ensures
            final(self)@ == old(self)@.finished(handler, outcome_view(result)),
            r is Some <==> old(self)@.redelivers(),
            r matches Some(invocation) ==> {
                &&& invocation.handler == handler
                &&& invocation.message@ == old(self)@.waiting[0]
            },
    {
        if self.user_data.is_none() {
            return None;
        }
        match result {
            Err(e) => {
                self.result = Err(e);
            },
            Ok(_) => {},
        }
        let ghost before = self.waiting@;
        match self.waiting.pop_front() {
            Some(message) => {
                proof {
                    assert(texts(before.subrange(1, before.len() as int)) =~= texts(
                        before,
                    ).drop_first());
                }
                self.invoke_handler = None;
                Some(Invocation { handler, message })
            },
            None => {
                self.invoke_handler = Some(handler);
                None
            },
        }
    }

    /// Delivers what a dispatched closure returned: an error becomes the
    /// pending result, a success leaves the pending result as it is. On a
    /// view that is torn down the result is dropped.
    pub fn finish_dispatch(&mut self, result: WVResult)
        ensures
            final(self)@ == old(self)@.delivered(outcome_view(result)),
    {
        if self.user_data.is_some() {
            match result {
                Err(e) => {
                    self.result = Err(e);
                },
                Ok(_) => {},
            }
        }
    }

    /// Tears the view down, in this order: the queue is closed, so that no
    /// closure is accepted from here on; the adapter is asked to end the
    /// loop and destroy the window; the user data is handed out; and the
    /// closures that were still queued are handed out to be released
    /// without being run. The host holds the queue's lock for the whole
    /// call. On a view that is torn down already nothing happens.
    pub fn teardown<F>(&mut self, queue: &mut DispatchQueue<F>) -> (r: Option<Teardown<T, F>>)
        ensures
            final(self)@ == after_teardown(old(self)@),
            r is Some <==> !old(self)@.is_closed(),
            r matches Some(teardown) ==> {
                &&& Some(teardown.user_data) == old(self)@.user_data
                &&& command_views(teardown.commands@) == teardown_request(old(self)@)
                &&& teardown.released@ == old(queue)@.pending
                &&& final(queue)@ == old(queue)@.closed()
            },
            r is None ==> final(queue)@ == old(queue)@,
    {
        if self.user_data.is_none() {
            return None;
        }
        let released = queue.close();
        let mut commands: Vec<Command> = Vec::new();
        commands.push(Command::Exit);
        commands.push(Command::Destroy);
        assert(command_views(commands@) =~= teardown_commands());
        let user_data = match self.user_data.take() {
            Some(user_data) => user_data,
            None => vstd::pervasive::unreached(),
        };
        self.closing = true;
        self.invoke_handler = None;
        self.waiting = VecDeque::new();
        self.result = Ok(());
        assert(texts(self.waiting@) =~= Seq::<Seq<char>>::empty());
        Some(Teardown { commands, user_data, released })
    }

    /// Tears the view down and hands out the user data with the rest of the
    /// teardown, as [`WebView::teardown`] does.
    pub fn into_inner<F>(self, queue: &mut DispatchQueue<F>) -> (r: Teardown<T, F>)
        requires
            !self@.is_closed(),
        ensures
            self@.user_data == Some(r.user_data),
            command_views(r.commands@) == teardown_commands(),
            r.released@ == old(queue)@.pending,
            final(queue)@ == old(queue)@.closed(),
    {
        let mut view = self;
        match view.teardown(queue) {
            Some(teardown) => teardown,
            None => vstd::pervasive::unreached(),
        }
    }
}

} // verus!
