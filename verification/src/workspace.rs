use vstd::prelude::*;

verus! {

/// One open buffer: its text and the path it will be written to, if any.
pub struct Buffer {
    pub path: Option<String>,
    pub data: String,
}

/// The mathematical value of a buffer.
pub struct BufferView {
    pub path: Option<Seq<char>>,
    pub data: Seq<char>,
}

impl View for Buffer {
    type V = BufferView;

    open spec fn view(&self) -> BufferView {
        BufferView {
            path: match self.path {
                Option::Some(p) => Option::Some(p@),
                Option::None => Option::None,
            },
            data: self.data@,
        }
    }
}

impl Buffer {
    /// A new, empty buffer with no target path yet.
    pub fn new() -> (r: Buffer)
        ensures
            r@.path is None,
            r@.data == Seq::<char>::empty(),
    {
        Buffer { path: Option::None, data: String::new() }
    }
}

/// The value of a whole buffer list.
pub open spec fn buffers_view(bs: Seq<Buffer>) -> Seq<BufferView> {
    bs.map_values(|b: Buffer| b@)
}

/// The live editing session: a fixed root directory, the ordered open
/// buffers with at most one marked current, and whether the syntax
/// definitions have been loaded and linked. Buffers are owned here and
/// nowhere else; modes look the current one up at the moment of use.
pub struct Workspace {
    pub path: String,
    pub buffers: Vec<Buffer>,
    pub current: Option<usize>,
    /// Whether the syntax-definition set has been loaded and linked.
    /// Linking happens before any buffer is created, because a buffer is
    /// associated with a definition at creation time.
    pub syntaxes_linked: bool,
}

impl Workspace {
    /// The one structural invariant: the current marker, when set,
    /// points at an existing buffer.
    pub open spec fn wf(&self) -> bool {
        self.current matches Some(i) ==> i < self.buffers.len()
    }

    /// An empty session rooted at the given directory.
    pub fn new(path: String) -> (r: Workspace)
        ensures
            r.path == path,
            r.buffers@ == Seq::<Buffer>::empty(),
            r.current is None,
            !r.syntaxes_linked,
            r.wf(),
    {
        Workspace { path, buffers: Vec::new(), current: Option::None, syntaxes_linked: false }
    }

    /// Records that the syntax-definition set has been loaded and
    /// linked, so that buffers created from here on can be associated
    /// with a definition.
    pub fn link_syntaxes(&mut self)
        ensures
            final(self).syntaxes_linked,
            final(self).path == old(self).path,
            final(self).buffers == old(self).buffers,
            final(self).current == old(self).current,
    {
        self.syntaxes_linked = true;
    }

    /// Appends a buffer and marks it current.
    pub fn add_buffer(&mut self, buffer: Buffer)
        requires
            old(self).buffers.len() < usize::MAX,
        ensures
            final(self).buffers@ == old(self).buffers@.push(buffer),
            final(self).current == Option::Some((old(self).buffers.len() as usize)),
            final(self).path == old(self).path,
            final(self).syntaxes_linked == old(self).syntaxes_linked,
            old(self).wf() ==> final(self).wf(),
    {
        let at: usize = self.buffers.len();
        self.buffers.push(buffer);
        self.current = Option::Some(at);
    }

    /// The buffer marked current, if any.
    pub fn current_buffer(&self) -> (r: Option<&Buffer>)
        requires
            self.wf(),
        ensures
            match self.current {
                Option::Some(i) => r matches Some(b) && *b == self.buffers@[i as int],
                Option::None => r is None,
            },
    {
        match self.current {
            Option::Some(i) => Option::Some(&self.buffers[i]),
            Option::None => Option::None,
        }
    }
}

} // verus!
