//! The tabs of an application and which of them is selected.

use vstd::prelude::*;

verus! {

/// What a user can do to the tabs.
#[derive(Clone, Debug, PartialEq, Eq)]
pub enum Message {
    /// The tab at the index was selected.
    TabSelected(usize),
    /// The tab at the index was closed.
    TabClosed(usize),
    /// The label for the next tab was edited.
    TabLabelInputChanged(String),
    /// The content for the next tab was edited.
    TabContentInputChanged(String),
    /// A tab is to be made of the pending label and content.
    NewTab,
}

/// The tabs in display order, each a label and a content, the index of the
/// selected one, and the label and content typed in for the next tab.
#[derive(Debug)]
pub struct Tabs {
    pub active_tab: usize,
    pub new_tab_label: String,
    pub new_tab_content: String,
    pub tabs: Vec<(String, String)>,
}

/// The index `active` brought back among `remaining` tabs: itself where it
/// is the index of a tab, else the index of the last tab, and 0 where there
/// is no tab. This is the selection after a tab was closed and `remaining`
/// tabs are left.
pub open spec fn clamped_index(active: int, remaining: int) -> int {
    if remaining <= 0 {
        0
    } else if active <= remaining - 1 {
        active
    } else {
        remaining - 1
    }
}

/// Whether `active` is a proper selection among `count` tabs: the index of a
/// tab, or 0 where there is none.
pub open spec fn active_in_range(active: int, count: int) -> bool {
    0 <= active && (active < count || active == 0)
}

/// The tabs and the selection after the tab at `index` was closed.
pub open spec fn after_close<T>(tabs: Seq<T>, active: int, index: int) -> (Seq<T>, int) {
    (tabs.remove(index), clamped_index(active, tabs.len() - 1))
}

/// The tabs and the selection after the tabs at `indices` were closed, one
/// after the other.
pub open spec fn after_closes<T>(tabs: Seq<T>, active: int, indices: Seq<int>) -> (Seq<T>, int)
    decreases indices.len(),
{
    if indices.len() == 0 {
        (tabs, active)
    } else {
        let before = after_closes(tabs, active, indices.drop_last());
        after_close(before.0, before.1, indices.last())
    }
}

/// Whether each of `indices` names a tab when its turn to be closed comes.
pub open spec fn closes_in_bounds(count: int, indices: Seq<int>) -> bool {
    forall|k: int| 0 <= k < indices.len() ==> 0 <= #[trigger] indices[k] < count - k
}

impl Tabs {
    /// The tabs as a sequence of pairs of label and content.
    pub open spec fn entries(&self) -> Seq<(Seq<char>, Seq<char>)> {
        Seq::new(self.tabs@.len(), |i: int| (self.tabs@[i].0@, self.tabs@[i].1@))
    }

    /// Whether a tab would be made of the pending label and content: both
    /// must hold something.
    pub open spec fn can_add(&self) -> bool {
        self.new_tab_label@.len() > 0 && self.new_tab_content@.len() > 0
    }

    /// No tabs, nothing typed in.
    pub fn new() -> (r: Self)
        ensures
            r.active_tab == 0,
            r.entries() == Seq::<(Seq<char>, Seq<char>)>::empty(),
            r.new_tab_label@ == Seq::<char>::empty(),
            r.new_tab_content@ == Seq::<char>::empty(),
    {
        let r = Tabs {
            active_tab: 0,
            new_tab_label: String::new(),
            new_tab_content: String::new(),
            tabs: Vec::new(),
        };
        assert(r.entries() =~= Seq::<(Seq<char>, Seq<char>)>::empty());
        r
    }

    /// Whether `self` is what `before` becomes when the tab at `index` is
    /// selected: the index is taken as it is, and nothing else changes.
    pub open spec fn selected_from(&self, before: &Tabs, index: usize) -> bool {
        &&& self.active_tab == index
        &&& self.tabs == before.tabs
        &&& self.new_tab_label == before.new_tab_label
        &&& self.new_tab_content == before.new_tab_content
    }

    /// Whether `self` is what `before` becomes when the tab at `index` is
    /// closed: the tab leaves, those behind it move up by one, and the
    /// selection is brought back among the tabs that are left.
    pub open spec fn closed_from(&self, before: &Tabs, index: usize) -> bool {
        &&& (self.entries(), self.active_tab as int) == after_close(
            before.entries(),
            before.active_tab as int,
            index as int,
        )
        &&& self.new_tab_label == before.new_tab_label
        &&& self.new_tab_content == before.new_tab_content
    }

    /// Whether `self` is what `before` becomes when a new tab is asked for:
    /// where the pending label and content both hold something, they become
    /// the last tab and are emptied; else nothing changes.
    pub open spec fn added_from(&self, before: &Tabs) -> bool {
        if before.can_add() {
            &&& self.entries() == before.entries().push(
                (before.new_tab_label@, before.new_tab_content@),
            )
            &&& self.new_tab_label@ == Seq::<char>::empty()
            &&& self.new_tab_content@ == Seq::<char>::empty()
            &&& self.active_tab == before.active_tab
        } else {
            *self == *before
        }
    }

    /// Whether `message` can be applied: a tab that is closed must exist.
    pub open spec fn accepts(&self, message: &Message) -> bool {
        message matches Message::TabClosed(index) ==> index < self.tabs@.len()
    }

    /// Tells whether `message` can be applied.
    pub fn can_apply(&self, message: &Message) -> (r: bool)
        ensures
            r == self.accepts(message),
    {
        match message {
            Message::TabClosed(index) => *index < self.tabs.len(),
            _ => true,
        }
    }

    /// Selects the tab at `index`. The index is taken as it is.
    pub fn select(&mut self, index: usize)
        ensures
            final(self).selected_from(old(self), index),
    {
        self.active_tab = index;
    }

    /// Selects the tab at `index`, or the last tab where there is none at
    /// `index`, or 0 where there is no tab at all.
    pub fn select_clamped(&mut self, index: usize)
        ensures
            final(self).selected_from(
                old(self),
                clamped_index(index as int, old(self).tabs@.len() as int) as usize,
            ),
            active_in_range(final(self).active_tab as int, final(self).tabs@.len() as int),
    {
        self.active_tab = if self.tabs.is_empty() {
            0
        } else if index <= self.tabs.len() - 1 {
            index
        } else {
            self.tabs.len() - 1
        };
    }

    /// Closes the tab at `index`: the tabs behind it move up by one, and the
    /// selection is brought back among the tabs that are left.
    pub fn close(&mut self, index: usize)
        requires
            index < old(self).tabs@.len(),
        ensures
            final(self).closed_from(old(self), index),
            active_in_range(final(self).active_tab as int, final(self).tabs@.len() as int),
    {
        let _ = self.tabs.remove(index);
        self.active_tab = if self.tabs.is_empty() {
            0
        } else if self.active_tab <= self.tabs.len() - 1 {
            self.active_tab
        } else {
            self.tabs.len() - 1
        };
        assert(self.entries() =~= old(self).entries().remove(index as int));
    }

    /// Makes a tab of the pending label and content and empties both, if
    /// each of them holds something. Else nothing changes, and the number of
    /// tabs least of all.
    pub fn add(&mut self)
        ensures
            final(self).added_from(old(self)),
            !old(self).can_add() ==> final(self).entries().len() == old(self).entries().len(),
    {
        if !self.new_tab_label.as_str().is_empty() && !self.new_tab_content.as_str().is_empty() {
            let label = self.new_tab_label.clone();
            let content = self.new_tab_content.clone();
            self.tabs.push((label, content));
            self.new_tab_label = String::new();
            self.new_tab_content = String::new();
            assert(self.entries() =~= old(self).entries().push(
                (old(self).new_tab_label@, old(self).new_tab_content@),
            ));
        }
    }

    /// Applies one message to the tabs.
    pub fn update(&mut self, message: Message)
        requires
            old(self).accepts(&message),
        ensures
            match message {
                Message::TabSelected(index) => final(self).selected_from(old(self), index),
                Message::TabClosed(index) => final(self).closed_from(old(self), index),
                Message::TabLabelInputChanged(value) => {
                    &&& final(self).new_tab_label == value
                    &&& final(self).new_tab_content == old(self).new_tab_content
                    &&& final(self).tabs == old(self).tabs
                    &&& final(self).active_tab == old(self).active_tab
                },
                Message::TabContentInputChanged(value) => {
                    &&& final(self).new_tab_content == value
                    &&& final(self).new_tab_label == old(self).new_tab_label
                    &&& final(self).tabs == old(self).tabs
                    &&& final(self).active_tab == old(self).active_tab
                },
                Message::NewTab => final(self).added_from(old(self)),
            },
    {
        match message {
            Message::TabSelected(index) => self.select(index),
            Message::TabClosed(index) => self.close(index),
            Message::TabLabelInputChanged(value) => {
                self.new_tab_label = value;
            },
            Message::TabContentInputChanged(value) => {
                self.new_tab_content = value;
            },
            Message::NewTab => self.add(),
        }
    }
}

/// After one or more tabs were closed, one after the other, the selection
/// is the index of a tab that is left, or 0 where none is left. Every
/// beginning of a run of closings is such a run, so this holds after each
/// closing of the run. The selection before the run may be any index.
pub proof fn lemma_closing_keeps_selection_in_range<T>(
    tabs: Seq<T>,
    active: int,
    indices: Seq<int>,
)
    requires
        0 <= active,
        indices.len() >= 1,
        closes_in_bounds(tabs.len() as int, indices),
    ensures
        after_closes(tabs, active, indices).0.len() == tabs.len() - indices.len(),
        0 <= after_closes(tabs, active, indices).1,
        after_closes(tabs, active, indices).1 < after_closes(tabs, active, indices).0.len()
            || after_closes(tabs, active, indices).1 == 0,
        active_in_range(
            after_closes(tabs, active, indices).1,
            after_closes(tabs, active, indices).0.len() as int,
        ),
    decreases indices.len(),
{
    let earlier = indices.drop_last();
    if earlier.len() >= 1 {
        lemma_closing_keeps_selection_in_range(tabs, active, earlier);
    }
    let before = after_closes(tabs, active, earlier);
    assert(before.0.len() == tabs.len() - earlier.len());
    assert(0 <= indices.last() < before.0.len()) by {
        assert(indices.last() == indices[indices.len() - 1]);
    }
}

/// Closing the only tab leaves no tab and the selection at 0.
pub proof fn lemma_closing_only_tab<T>(tabs: Seq<T>, active: int)
    requires
        tabs.len() == 1,
    ensures
        after_close(tabs, active, 0).0 == Seq::<T>::empty(),
        after_close(tabs, active, 0).1 == 0,
{
    assert(tabs.remove(0) =~= Seq::<T>::empty());
}

/// Closing a tab in front of the selected one moves the selection down by
/// one where the selected tab was the last: the tab that was selected is
/// then selected still. (Where it was not the last, the index stays and the
/// selection passes to the next tab.)
pub proof fn lemma_closing_before_last_selected<T>(tabs: Seq<T>, active: int, index: int)
    requires
        0 <= index < active,
        index < tabs.len(),
        active == tabs.len() - 1 || (tabs.len() == 1 && active == 1),
    ensures
        after_close(tabs, active, index).1 == active - 1,
        tabs.len() >= 2 ==> after_close(tabs, active, index).0[active - 1] == tabs[active],
{
}

/// Closing a tab behind the selected one, or a tab in front of it while
/// another tab follows it, leaves the index of the selection as it was.
pub proof fn lemma_closing_keeps_index<T>(tabs: Seq<T>, active: int, index: int)
    requires
        0 <= index < tabs.len(),
        0 <= active < tabs.len() - 1,
    ensures
        after_close(tabs, active, index).1 == active,
{
}

} // verus!
