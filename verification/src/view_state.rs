//! The view state controller: what the interface shows, the draft being
//! composed and the posts last loaded, moved from state to state by the
//! events of the interface.
//!
//! The controller performs nothing itself. Each step returns the action that
//! the caller is to carry out; the caller reports how the action ended with
//! a further event.

use crate::post::{Post, PostView};
use crate::service::{posts_view, ServiceError};
use vstd::prelude::*;

verus! {

/// What the interface shows: the list of posts, or the form for a new one.
/// While the form is shown a submission may be under way.
#[derive(Clone, Copy, Debug, PartialEq, Eq, Structural)]
pub enum Mode {
    Viewing,
    Composing { submitting: bool },
}

/// Something that happened in the interface, or the end of an action that
/// the controller asked for.
#[derive(Debug)]
pub enum Event {
    /// The interface came up.
    Mounted,
    /// The control that switches between list and form was used.
    FormToggled,
    /// The title field of the form now holds this text.
    TitleEdited(String),
    /// The body field of the form now holds this text.
    BodyEdited(String),
    /// The submit control of the form was used.
    SubmitPressed,
    /// The creation asked for by [`Action::CreatePost`] ended.
    CreateFinished(Result<(), ServiceError>),
    /// The listing asked for by [`Action::LoadPosts`] ended.
    PostsLoaded(Result<Vec<Post>, ServiceError>),
}

/// What the caller is to do after a step.
#[derive(Debug, PartialEq)]
pub enum Action {
    /// Nothing.
    Nothing,
    /// Create a post with this title and body, then report
    /// [`Event::CreateFinished`].
    CreatePost { title: String, body: String },
    /// List the posts, then report [`Event::PostsLoaded`].
    LoadPosts,
}

/// The state of the interface.
#[derive(Debug)]
pub struct ViewState {
    mode: Mode,
    draft_title: String,
    draft_body: String,
    posts: Vec<Post>,
}

/// The mathematical content of a [`ViewState`].
pub struct ViewStateView {
    pub mode: Mode,
    pub draft_title: Seq<char>,
    pub draft_body: Seq<char>,
    pub posts: Seq<PostView>,
}

/// The mathematical content of an [`Event`].
pub enum EventView {
    Mounted,
    FormToggled,
    TitleEdited(Seq<char>),
    BodyEdited(Seq<char>),
    SubmitPressed,
    CreateFinished(Result<(), ServiceError>),
    PostsLoaded(Result<Seq<PostView>, ServiceError>),
}

/// The mathematical content of an [`Action`].
pub enum ActionView {
    Nothing,
    CreatePost { title: Seq<char>, body: Seq<char> },
    LoadPosts,
}

impl View for ViewState {
    type V = ViewStateView;

    closed spec fn view(&self) -> ViewStateView {
        ViewStateView {
            mode: self.mode,
            draft_title: self.draft_title@,
            draft_body: self.draft_body@,
            posts: self.posts.deep_view(),
        }
    }
}

impl View for Event {
    type V = EventView;

    open spec fn view(&self) -> EventView {
        match self {
            Event::Mounted => EventView::Mounted,
            Event::FormToggled => EventView::FormToggled,
            Event::TitleEdited(title) => EventView::TitleEdited(title@),
            Event::BodyEdited(body) => EventView::BodyEdited(body@),
            Event::SubmitPressed => EventView::SubmitPressed,
            Event::CreateFinished(result) => EventView::CreateFinished(*result),
            Event::PostsLoaded(result) => EventView::PostsLoaded(posts_view(*result)),
        }
    }
}

impl View for Action {
    type V = ActionView;

    open spec fn view(&self) -> ActionView {
        match self {
            Action::Nothing => ActionView::Nothing,
            Action::CreatePost { title, body } => ActionView::CreatePost {
                title: title@,
                body: body@,
            },
            Action::LoadPosts => ActionView::LoadPosts,
        }
    }
}

/// The state in which the interface comes up: the list is shown, the draft
/// is empty and no post is loaded yet.
pub open spec fn initial_state() -> ViewStateView {
    ViewStateView {
        mode: Mode::Viewing,
        draft_title: Seq::empty(),
        draft_body: Seq::empty(),
        posts: Seq::empty(),
    }
}

/// Whether a submission may start: the form is shown and none is under way.
pub open spec fn may_submit(state: ViewStateView) -> bool {
    state.mode == (Mode::Composing { submitting: false })
}

/// Whether the end of a creation is awaited.
pub open spec fn awaits_creation(state: ViewStateView) -> bool {
    state.mode == (Mode::Composing { submitting: true })
}

/// The state that follows `state` when `event` happens.
///
/// - Toggling switches between list and form. It keeps the draft, and a form
///   that is shown anew has no submission under way.
/// - An edit replaces one text of the draft.
/// - Submitting marks the submission as under way, where one may start.
/// - The end of a creation that is awaited ends the submission. On success
///   the draft is emptied and the list is shown; on failure the form stays
///   as it is. When none is awaited the report changes nothing.
/// - Posts that were loaded replace the posts held; a failed load changes
///   nothing.
pub open spec fn next_state(state: ViewStateView, event: EventView) -> ViewStateView {
    match event {
        EventView::Mounted => state,
        EventView::FormToggled => ViewStateView {
            mode: match state.mode {
                Mode::Viewing => Mode::Composing { submitting: false },
                Mode::Composing { .. } => Mode::Viewing,
            },
            ..state
        },
        EventView::TitleEdited(title) => ViewStateView { draft_title: title, ..state },
        EventView::BodyEdited(body) => ViewStateView { draft_body: body, ..state },
        EventView::SubmitPressed => if may_submit(state) {
            ViewStateView { mode: Mode::Composing { submitting: true }, ..state }
        } else {
            state
        },
        EventView::CreateFinished(result) => if !awaits_creation(state) {
            state
        } else if result is Ok {
            ViewStateView {
                mode: Mode::Viewing,
                draft_title: Seq::empty(),
                draft_body: Seq::empty(),
                posts: state.posts,
            }
        } else {
            ViewStateView { mode: Mode::Composing { submitting: false }, ..state }
        },
        EventView::PostsLoaded(result) => match result {
            Ok(posts) => ViewStateView { posts, ..state },
            Err(_) => state,
        },
    }
}

/// The action that the caller is asked for when `event` happens in `state`:
/// a listing when the interface comes up and after each creation that
/// succeeded, a creation of the draft when a submission starts, and nothing
/// otherwise.
pub open spec fn requested_action(state: ViewStateView, event: EventView) -> ActionView {
    match event {
        EventView::Mounted => ActionView::LoadPosts,
        EventView::SubmitPressed => if may_submit(state) {
            ActionView::CreatePost { title: state.draft_title, body: state.draft_body }
        } else {
            ActionView::Nothing
        },
        EventView::CreateFinished(result) => if awaits_creation(state) && result is Ok {
            ActionView::LoadPosts
        } else {
            ActionView::Nothing
        },
        _ => ActionView::Nothing,
    }
}

/// A creation that failed ends the submission and nothing else: the form
/// stays, with the draft and the posts held as they were, and nothing is
/// asked of the caller.
pub proof fn law_failed_creation_keeps_draft(state: ViewStateView, error: ServiceError)
    requires
        awaits_creation(state),
    ensures
        next_state(state, EventView::CreateFinished(Err(error))) == (ViewStateView {
            mode: Mode::Composing { submitting: false },
            ..state
        }),
        requested_action(state, EventView::CreateFinished(Err(error))) == ActionView::Nothing,
{
}

/// Leaving the form, or coming back to it, changes neither the draft nor
/// the posts held.
pub proof fn law_toggle_keeps_draft(state: ViewStateView)
    ensures
        next_state(state, EventView::FormToggled).draft_title == state.draft_title,
        next_state(state, EventView::FormToggled).draft_body == state.draft_body,
        next_state(state, EventView::FormToggled).posts == state.posts,
        next_state(state, EventView::FormToggled).mode is Viewing <==> state.mode is Composing,
{
}

/// While a submission is under way a second one cannot start.
pub proof fn law_no_second_submission(state: ViewStateView)
    requires
        awaits_creation(state),
    ensures
        next_state(state, EventView::SubmitPressed) == state,
        requested_action(state, EventView::SubmitPressed) == ActionView::Nothing,
{
}

/// The posts held change only when a listing succeeded, and then they are
/// replaced as a whole by the posts that were listed.
pub proof fn law_posts_change_only_on_load(state: ViewStateView, event: EventView)
    ensures
        match event {
            EventView::PostsLoaded(Ok(posts)) => next_state(state, event).posts == posts,
            _ => next_state(state, event).posts == state.posts,
        },
{
}

impl ViewState {
    /// The state in which the interface comes up.
    pub fn new() -> (state: ViewState)
        ensures
            state@ == initial_state(),
    {
        let state = ViewState {
            mode: Mode::Viewing,
            draft_title: String::new(),
            draft_body: String::new(),
            posts: Vec::new(),
        };
        assert(state.posts.deep_view() =~= Seq::<PostView>::empty());
        state
    }

    /// Takes `event` into account and returns what the caller is to do.
    pub fn step(&mut self, event: Event) -> (action: Action)
        ensures
            final(self)@ == next_state(old(self)@, event@),
            action@ == requested_action(old(self)@, event@),
    {
        match event {
            Event::Mounted => Action::LoadPosts,
            Event::FormToggled => {
                self.mode = match self.mode {
                    Mode::Viewing => Mode::Composing { submitting: false },
                    Mode::Composing { .. } => Mode::Viewing,
                };
                Action::Nothing
            },
            Event::TitleEdited(title) => {
                self.draft_title = title;
                Action::Nothing
            },
            Event::BodyEdited(body) => {
                self.draft_body = body;
                Action::Nothing
            },
            Event::SubmitPressed => match self.mode {
                Mode::Composing { submitting: false } => {
                    self.mode = Mode::Composing { submitting: true };
                    Action::CreatePost {
                        title: self.draft_title.clone(),
                        body: self.draft_body.clone(),
                    }
                },
                _ => Action::Nothing,
            },
            Event::CreateFinished(result) => match self.mode {
                Mode::Composing { submitting: true } => match result {
                    Ok(_) => {
                        self.mode = Mode::Viewing;
                        self.draft_title = String::new();
                        self.draft_body = String::new();
                        Action::LoadPosts
                    },
                    Err(_) => {
                        self.mode = Mode::Composing { submitting: false };
                        Action::Nothing
                    },
                },
                _ => Action::Nothing,
            },
            Event::PostsLoaded(result) => {
                match result {
                    Ok(posts) => {
                        self.posts = posts;
                    },
                    Err(_) => {},
                }
                Action::Nothing
            },
        }
    }

    /// What the interface shows.
    pub fn mode(&self) -> (mode: Mode)
        ensures
            mode == self@.mode,
    {
        self.mode
    }

    /// The title of the draft.
    pub fn draft_title(&self) -> (title: &str)
        ensures
            title@ == self@.draft_title,
    {
        self.draft_title.as_str()
    }

    /// The body of the draft.
    pub fn draft_body(&self) -> (body: &str)
        ensures
            body@ == self@.draft_body,
    {
        self.draft_body.as_str()
    }

    /// The posts last loaded, newest first as the storage handed them out.
    pub fn posts(&self) -> (posts: &Vec<Post>)
        ensures
            posts.deep_view() == self@.posts,
    {
        &self.posts
    }
}

} // verus!
