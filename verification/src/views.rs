use vstd::prelude::*;

verus! {

/// The state of the corpus-list view: which corpus name is selected in
/// the list, if any. How the list is painted is the shell's affair.
#[derive(Debug, Clone)]
pub struct CorpusListView {
    pub selected: Option<String>,
}

impl CorpusListView {
    /// A list view with the given selection.
    pub fn new(selected: Option<String>) -> (r: Self)
        ensures
            r.selected == selected,
    {
        CorpusListView { selected }
    }
}

/// The state of the token demo view: the corpus name it was opened from,
/// so that going back to the list restores the selection.
#[derive(Debug, Clone)]
pub struct DemoView {
    pub selected: String,
}

impl DemoView {
    /// A demo view remembering the given selection.
    pub fn new(selected: String) -> (r: Self)
        ensures
            r.selected == selected,
    {
        DemoView { selected }
    }
}

/// Which main view the shell shows.
#[derive(Debug, Clone)]
pub enum MainView {
    ListCorpora { selected: Option<String> },
    Demo { selected: String },
}

impl Default for MainView {
    fn default() -> (r: Self)
        ensures
            r matches MainView::ListCorpora { selected } && selected is None,
    {
        MainView::ListCorpora { selected: None }
    }
}

impl MainView {
    /// The corpus name the view remembers as selected, if any.
    pub fn get_selected_corpus(&self) -> (r: Option<&String>)
        ensures
            match self {
                MainView::ListCorpora { selected } => match (r, selected) {
                    (Some(a), Some(b)) => a == b,
                    (None, None) => true,
                    _ => false,
                },
                MainView::Demo { selected } => r == Some(selected),
            },
    {
        match self {
            MainView::ListCorpora { selected: Some(s) } => Some(s),
            MainView::ListCorpora { selected: None } => None,
            MainView::Demo { selected } => Some(selected),
        }
    }
}

} // verus!
