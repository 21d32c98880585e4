use vstd::prelude::*;

verus! {

/// The optional trait tables of a flexible reader or writer: one slot per
/// trait that the wrapped value may be shown to implement.
///
/// A slot is filled by its setter and read by its getter; a getter returns a
/// value exactly when its setter has run. A writer has no `BufRead` slot to
/// fill, and instantiates `B` with a type that has no values.
#[derive(Clone, Copy)]
pub struct OptTable<S, B, A, F, D, R> {
    seek: Option<S>,
    buf: Option<B>,
    any: Option<A>,
    file_ext: Option<F>,
    as_fd: Option<D>,
    as_raw_fd: Option<R>,
}

/// The slots of an [`OptTable`], in the order seek, buf, any, file_ext,
/// as_fd, as_raw_fd.
pub type Slots<S, B, A, F, D, R> = (Option<S>, Option<B>, Option<A>, Option<F>, Option<D>, Option<R>);

impl<S, B, A, F, D, R> View for OptTable<S, B, A, F, D, R> {
    type V = Slots<S, B, A, F, D, R>;

    closed spec fn view(&self) -> Slots<S, B, A, F, D, R> {
        (self.seek, self.buf, self.any, self.file_ext, self.as_fd, self.as_raw_fd)
    }
}

impl<S, B, A, F, D, R> Default for OptTable<S, B, A, F, D, R> {
    /// A table with every slot empty.
    fn default() -> (t: Self)
        ensures
            t@ == (None::<S>, None::<B>, None::<A>, None::<F>, None::<D>, None::<R>),
    {
        OptTable { seek: None, buf: None, any: None, file_ext: None, as_fd: None, as_raw_fd: None }
    }
}

impl<S, B, A, F, D, R> OptTable<S, B, A, F, D, R> {
    /// Fill the `Seek` slot.
    pub fn set_seek(&mut self, v: S)
        ensures
            final(self)@ == (Some(v), old(self)@.1, old(self)@.2, old(self)@.3, old(self)@.4, old(self)@.5),
    {
        self.seek = Some(v);
    }

    /// Fill the `BufRead` slot.
    pub fn set_buf(&mut self, v: B)
        ensures
            final(self)@ == (old(self)@.0, Some(v), old(self)@.2, old(self)@.3, old(self)@.4, old(self)@.5),
    {
        self.buf = Some(v);
    }

    /// Fill the `Any` slot.
    pub fn set_any(&mut self, v: A)
        ensures
            final(self)@ == (old(self)@.0, old(self)@.1, Some(v), old(self)@.3, old(self)@.4, old(self)@.5),
    {
        self.any = Some(v);
    }

    /// Fill the `FileExt` slot.
    pub fn set_file_ext(&mut self, v: F)
        ensures
            final(self)@ == (old(self)@.0, old(self)@.1, old(self)@.2, Some(v), old(self)@.4, old(self)@.5),
    {
        self.file_ext = Some(v);
    }

    /// Fill the `AsFd` slot.
    pub fn set_as_fd(&mut self, v: D)
        ensures
            final(self)@ == (old(self)@.0, old(self)@.1, old(self)@.2, old(self)@.3, Some(v), old(self)@.5),
    {
        self.as_fd = Some(v);
    }

    /// Fill the `AsRawFd` slot.
    pub fn set_as_raw_fd(&mut self, v: R)
        ensures
            final(self)@ == (old(self)@.0, old(self)@.1, old(self)@.2, old(self)@.3, old(self)@.4, Some(v)),
    {
        self.as_raw_fd = Some(v);
    }

    /// The `Seek` slot.
    pub fn seek(&self) -> (v: Option<S>)
        where S: Copy
        ensures
            v == self@.0,
    {
        self.seek
    }

    /// The `BufRead` slot.
    pub fn buf(&self) -> (v: Option<B>)
        where B: Copy
        ensures
            v == self@.1,
    {
        self.buf
    }

    /// The `Any` slot.
    pub fn any(&self) -> (v: Option<A>)
        where A: Copy
        ensures
            v == self@.2,
    {
        self.any
    }

    /// The `FileExt` slot.
    pub fn file_ext(&self) -> (v: Option<F>)
        where F: Copy
        ensures
            v == self@.3,
    {
        self.file_ext
    }

    /// The `AsFd` slot.
    pub fn as_fd(&self) -> (v: Option<D>)
        where D: Copy
        ensures
            v == self@.4,
    {
        self.as_fd
    }

    /// The `AsRawFd` slot.
    pub fn as_raw_fd(&self) -> (v: Option<R>)
        where R: Copy
        ensures
            v == self@.5,
    {
        self.as_raw_fd
    }
}

} // verus!
