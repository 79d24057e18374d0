use vstd::prelude::*;

verus! {

/// The per-mode state the core itself reads. The full interactive
/// behaviour of each mode (its command handling, its drawing) belongs to
/// the external command and presenter collaborators; these records carry
/// only what the core's own routing and labelling decisions depend on.

/// Confirmation of a destructive command before it runs.
pub struct ConfirmMode {
    /// The prompt shown to the user while awaiting the answer.
    pub prompt: String,
}

/// Free-form command entry with a searchable result list.
pub struct CommandMode {
    /// Whether the mode is accepting query text, as opposed to
    /// navigating its result list.
    pub insert: bool,
    pub input: String,
}

/// Two-character tag jumping within the visible buffer.
pub struct JumpMode {
    pub input: String,
}

/// Jumping to a line by its number.
pub struct LineJumpMode {
    pub input: String,
}

/// Editing the current buffer's target path.
pub struct PathMode {
    pub input: String,
}

/// The set of candidate paths a finished background indexing pass hands
/// to Open mode.
pub struct PathIndex {
    pub entries: Vec<String>,
}

/// Fuzzy file opening: a query over a background-built path index.
pub struct OpenMode {
    /// Whether the mode is accepting query text, as opposed to
    /// navigating its result list.
    pub insert: bool,
    pub query: String,
    /// The completed index, once background indexing has delivered it.
    pub index: Option<PathIndex>,
    /// The query whose search results are currently on display, if a
    /// search has run at all. Result computation itself belongs to the
    /// external search collaborator.
    pub searched_query: Option<String>,
}

impl OpenMode {
    pub fn new() -> (r: OpenMode)
        ensures
            r.insert,
            r.query@ == Seq::<char>::empty(),
            r.index is None,
            r.searched_query is None,
    {
        OpenMode { insert: true, query: String::new(), index: Option::None, searched_query: Option::None }
    }

    /// Installs the completed path index delivered by the background
    /// indexing task. Everything else about the mode is untouched.
    pub fn set_index(&mut self, index: PathIndex)
        ensures
            final(self).index == Option::Some(index),
            final(self).insert == old(self).insert,
            final(self).query == old(self).query,
            final(self).searched_query == old(self).searched_query,
    {
        self.index = Option::Some(index);
    }

    /// Re-runs the mode's search: afterwards the displayed results
    /// reflect exactly the query typed so far.
    pub fn search(&mut self)
        ensures
            final(self).searched_query == Option::Some(old(self).query),
            final(self).insert == old(self).insert,
            final(self).query == old(self).query,
            final(self).index == old(self).index,
    {
        self.searched_query = Option::Some(self.query.clone());
    }

    /// Whether the mode is currently taking query input.
    pub fn insert_mode(&self) -> (r: bool)
        ensures
            r == self.insert,
    {
        self.insert
    }
}

/// Character-wise selection anchored at a fixed buffer position.
pub struct SelectMode {
    /// Offset of the selection anchor within the current buffer.
    pub anchor: usize,
}

/// Line-wise selection anchored at a fixed line.
pub struct SelectLineMode {
    /// Line number of the selection anchor.
    pub anchor: usize,
}

/// Incremental text search through the current buffer.
pub struct SearchMode {
    /// Whether the mode is accepting query text, as opposed to moving
    /// between matches.
    pub insert: bool,
    pub query: Option<String>,
}

/// Jumping to a symbol of the current buffer via a searchable list.
pub struct SymbolJumpMode {
    /// Whether the mode is accepting query text, as opposed to
    /// navigating its result list.
    pub insert: bool,
}

/// Choosing a colour theme via a searchable list.
pub struct ThemeMode {
    /// Whether the mode is accepting query text, as opposed to
    /// navigating its result list.
    pub insert: bool,
}

impl CommandMode {
    pub fn insert_mode(&self) -> (r: bool)
        ensures
            r == self.insert,
    {
        self.insert
    }
}

impl SearchMode {
    pub fn insert_mode(&self) -> (r: bool)
        ensures
            r == self.insert,
    {
        self.insert
    }
}

impl SymbolJumpMode {
    pub fn insert_mode(&self) -> (r: bool)
        ensures
            r == self.insert,
    {
        self.insert
    }
}

impl ThemeMode {
    pub fn insert_mode(&self) -> (r: bool)
        ensures
            r == self.insert,
    {
        self.insert
    }
}

} // verus!
