//! What the interface displays in each state, as plain values: which panel,
//! which labels, and one card for each post. Drawing them is left to the
//! caller.

use crate::post::{Post, PostView};
use crate::view_state::{Mode, ViewState, ViewStateView};
use vstd::prelude::*;
use vstd::string::StringExecFns;

verus! {

/// Label of the toggle control while the form is shown.
pub const BACK_LABEL: &'static str = "← Back";

/// Label of the toggle control while the list is shown.
pub const CREATE_POST_LABEL: &'static str = "+ Create Post";

/// Label of the submit control while a submission is under way.
pub const POSTING_LABEL: &'static str = "Posting...";

/// Label of the submit control otherwise.
pub const POST_LABEL: &'static str = "Post";

/// Shown in place of the list while no post is held.
pub const EMPTY_STATE_MESSAGE: &'static str = "No posts yet. Create the first one!";

/// The author named on every post.
pub const AUTHOR_LABEL: &'static str = "Shreyas";

/// One post as it is displayed.
#[derive(Clone, Debug, PartialEq)]
pub struct PostCard {
    /// Tells the cards of a list apart: the identifier of the post.
    pub key: u32,
    pub title: String,
    pub body: String,
    pub author: String,
    /// The creation time, in the text form it was stored in.
    pub created_time: String,
}

/// The mathematical content of a [`PostCard`].
pub struct PostCardView {
    pub key: u32,
    pub title: Seq<char>,
    pub body: Seq<char>,
    pub author: Seq<char>,
    pub created_time: Seq<char>,
}

/// The panel that takes the place of the form while the list is shown.
#[derive(Clone, Debug, PartialEq)]
pub enum ListPanel {
    /// No post is held: [`EMPTY_STATE_MESSAGE`] is displayed.
    Empty,
    /// One card for each post held, in their order.
    Cards(Vec<PostCard>),
}

/// The mathematical content of a [`ListPanel`].
pub enum ListPanelView {
    Empty,
    Cards(Seq<PostCardView>),
}

/// The form for a new post as it is displayed.
#[derive(Clone, Debug, PartialEq)]
pub struct FormPanel {
    pub title: String,
    pub body: String,
    pub submit_label: String,
    pub submit_disabled: bool,
}

/// The mathematical content of a [`FormPanel`].
pub struct FormPanelView {
    pub title: Seq<char>,
    pub body: Seq<char>,
    pub submit_label: Seq<char>,
    pub submit_disabled: bool,
}

/// What is displayed below the menu.
#[derive(Clone, Debug, PartialEq)]
pub enum MainPanel {
    List(ListPanel),
    Form(FormPanel),
}

/// The mathematical content of a [`MainPanel`].
pub enum MainPanelView {
    List(ListPanelView),
    Form(FormPanelView),
}

impl View for PostCard {
    type V = PostCardView;

    open spec fn view(&self) -> PostCardView {
        PostCardView {
            key: self.key,
            title: self.title@,
            body: self.body@,
            author: self.author@,
            created_time: self.created_time@,
        }
    }
}

impl DeepView for PostCard {
    type V = PostCardView;

    open spec fn deep_view(&self) -> PostCardView {
        self@
    }
}

impl View for ListPanel {
    type V = ListPanelView;

    open spec fn view(&self) -> ListPanelView {
        match self {
            ListPanel::Empty => ListPanelView::Empty,
            ListPanel::Cards(cards) => ListPanelView::Cards(cards.deep_view()),
        }
    }
}

impl View for FormPanel {
    type V = FormPanelView;

    open spec fn view(&self) -> FormPanelView {
        FormPanelView {
            title: self.title@,
            body: self.body@,
            submit_label: self.submit_label@,
            submit_disabled: self.submit_disabled,
        }
    }
}

impl View for MainPanel {
    type V = MainPanelView;

    open spec fn view(&self) -> MainPanelView {
        match self {
            MainPanel::List(list) => MainPanelView::List(list@),
            MainPanel::Form(form) => MainPanelView::Form(form@),
        }
    }
}

/// The label of the toggle control: it names what using the control leads
/// to.
pub open spec fn toggle_label_of(mode: Mode) -> Seq<char> {
    if mode is Composing {
        BACK_LABEL@
    } else {
        CREATE_POST_LABEL@
    }
}

/// Whether a submission is under way.
pub open spec fn is_submitting(mode: Mode) -> bool {
    mode == (Mode::Composing { submitting: true })
}

/// The label of the submit control.
pub open spec fn submit_label_of(mode: Mode) -> Seq<char> {
    if is_submitting(mode) {
        POSTING_LABEL@
    } else {
        POST_LABEL@
    }
}

/// The card of a post: its texts as they are, under the one author.
pub open spec fn card_of(post: PostView) -> PostCardView {
    PostCardView {
        key: post.id,
        title: post.title,
        body: post.post_body,
        author: AUTHOR_LABEL@,
        created_time: post.created_time,
    }
}

/// The list panel for these posts.
pub open spec fn list_panel_of(posts: Seq<PostView>) -> ListPanelView {
    if posts.len() == 0 {
        ListPanelView::Empty
    } else {
        ListPanelView::Cards(posts.map_values(|post: PostView| card_of(post)))
    }
}

/// The form panel in this state: the draft in the two fields, and a submit
/// control that is disabled while a submission is under way.
pub open spec fn form_panel_of(state: ViewStateView) -> FormPanelView {
    FormPanelView {
        title: state.draft_title,
        body: state.draft_body,
        submit_label: submit_label_of(state.mode),
        submit_disabled: is_submitting(state.mode),
    }
}

/// What is displayed below the menu in this state.
pub open spec fn main_panel_of(state: ViewStateView) -> MainPanelView {
    if state.mode is Composing {
        MainPanelView::Form(form_panel_of(state))
    } else {
        MainPanelView::List(list_panel_of(state.posts))
    }
}

/// The label of the toggle control of the menu.
pub fn toggle_label(mode: Mode) -> (label: &'static str)
    ensures
        label@ == toggle_label_of(mode),
{
    match mode {
        Mode::Composing { .. } => BACK_LABEL,
        Mode::Viewing => CREATE_POST_LABEL,
    }
}

/// Whether the submit control is disabled.
pub fn submit_disabled(mode: Mode) -> (disabled: bool)
    ensures
        disabled == is_submitting(mode),
{
    match mode {
        Mode::Composing { submitting } => submitting,
        Mode::Viewing => false,
    }
}

/// The label of the submit control of the form.
pub fn submit_label(mode: Mode) -> (label: &'static str)
    ensures
        label@ == submit_label_of(mode),
{
    if submit_disabled(mode) {
        POSTING_LABEL
    } else {
        POST_LABEL
    }
}

/// The card that displays `post`.
pub fn post_card(post: &Post) -> (card: PostCard)
    ensures
        card@ == card_of(post@),
{
    PostCard {
        key: post.id(),
        title: String::from_str(post.title()),
        body: String::from_str(post.post_body()),
        author: String::from_str(AUTHOR_LABEL),
        created_time: String::from_str(post.created_time()),
    }
}

/// The list panel that displays `posts`.
pub fn list_panel(posts: &Vec<Post>) -> (panel: ListPanel)
    ensures
        panel@ == list_panel_of(posts.deep_view()),
{
    if posts.len() == 0 {
        return ListPanel::Empty;
    }
    let mut cards: Vec<PostCard> = Vec::new();
    let mut index: usize = 0;
    while index < posts.len()
        invariant
            index <= posts.len(),
            cards.len() == index,
            forall|earlier: int| 0 <= earlier < index ==> (#[trigger] cards@[earlier])@ == card_of(posts@[earlier]@),
        decreases posts.len() - index,
    {
        cards.push(post_card(&posts[index]));
        index += 1;
    }
    assert(cards.deep_view() =~= posts.deep_view().map_values(|post: PostView| card_of(post)));
    ListPanel::Cards(cards)
}

/// The form panel in `state`.
pub fn form_panel(state: &ViewState) -> (panel: FormPanel)
    ensures
        panel@ == form_panel_of(state@),
{
    FormPanel {
        title: String::from_str(state.draft_title()),
        body: String::from_str(state.draft_body()),
        submit_label: String::from_str(submit_label(state.mode())),
        submit_disabled: submit_disabled(state.mode()),
    }
}

/// What is displayed below the menu in `state`.
pub fn main_panel(state: &ViewState) -> (panel: MainPanel)
    ensures
        panel@ == main_panel_of(state@),
{
    match state.mode() {
        Mode::Composing { .. } => MainPanel::Form(form_panel(state)),
        Mode::Viewing => MainPanel::List(list_panel(state.posts())),
    }
}

} // verus!
