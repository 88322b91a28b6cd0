use vstd::prelude::*;

use crate::errors::{LinkError, ProgramError};

verus! {

/// An established attachment of a loaded program to a trace point, held as
/// the file descriptor the runtime returned for it.
#[derive(Clone, Copy, Debug, PartialEq, Eq, Structural)]
pub struct TracePointLink {
    pub fd: i32,
}

/// The handle [`TracePoint::attach`] returns; can be passed to
/// [`TracePoint::detach`] or [`TracePoint::take_link`].
#[derive(Clone, Copy, Debug, PartialEq, Eq, Structural)]
pub struct TracePointLinkId(pub usize);

/// The bookkeeping state a program carries: the descriptor of the loaded
/// program, if it was loaded, and the registry of its attachments.
///
/// Link ids are positions in the registry and are never reused: a detached
/// or taken link leaves a hole, so a stale id can never name a younger
/// attachment.
#[derive(Clone, Debug)]
pub struct ProgramData {
    pub fd: Option<i32>,
    pub links: Vec<Option<TracePointLink>>,
}

impl ProgramData {
    /// Fresh bookkeeping state: not loaded, nothing attached.
    pub fn new() -> (r: ProgramData)
        ensures
            r.fd is None,
            r.links@ =~= Seq::<Option<TracePointLink>>::empty(),
    {
        ProgramData { fd: None, links: Vec::new() }
    }

    /// The descriptor of the loaded program, if it was loaded.
    pub fn prog_fd(&self) -> (r: Option<i32>)
        ensures
            r == self.fd,
    {
        self.fd
    }
}

/// A program attachable at a pre-defined kernel trace point.
///
/// The embedding performs the runtime work — loading the program text,
/// reading the trace point id out of the tracing filesystem, opening the
/// performance event and attaching to it — and hands the resulting
/// descriptors to these methods, which keep the program's state and answer
/// for every transition.
#[derive(Clone, Debug)]
pub struct TracePoint {
    pub data: ProgramData,
}

/// A program attachable at a pre-defined kernel trace point with access to
/// the kernel-internal arguments of the trace point.
#[derive(Clone, Debug)]
pub struct RawTracePoint {
    pub data: ProgramData,
}

impl TracePoint {
    /// A program that is not yet loaded.
    pub fn new() -> (r: TracePoint)
        ensures
            r.data.fd is None,
            r.data.links@ =~= Seq::<Option<TracePointLink>>::empty(),
    {
        TracePoint { data: ProgramData::new() }
    }

    /// Records the program as loaded under the descriptor the runtime
    /// returned for it.  Fails with `AlreadyLoaded`, changing nothing, if
    /// the program was already loaded.
    pub fn load(&mut self, prog_fd: i32) -> (r: Result<(), ProgramError>)
        ensures
            old(self).data.fd is Some ==> r == Err::<(), ProgramError>(ProgramError::AlreadyLoaded)
                && *final(self) == *old(self),
            old(self).data.fd is None ==> r == Ok::<(), ProgramError>(()) && final(self).data.fd
                == Some(prog_fd) && final(self).data.links == old(self).data.links,
    {
        match self.data.fd {
            Some(_) => Err(ProgramError::AlreadyLoaded),
            None => {
                self.data.fd = Some(prog_fd);
                Ok(())
            },
        }
    }

    /// Registers an attachment established for this program and returns
    /// the fresh id that will name it.  Fails with `NotLoaded`, changing
    /// nothing, if the program is not loaded: nothing can be attached to
    /// an unloaded program.
    pub fn attach(&mut self, link_fd: i32) -> (r: Result<TracePointLinkId, LinkError>)
        requires
            old(self).data.links@.len() < usize::MAX,
        ensures
            old(self).data.fd is None ==> r == Err::<TracePointLinkId, LinkError>(
                LinkError::NotLoaded,
            ) && *final(self) == *old(self),
            old(self).data.fd is Some ==> r == Ok::<TracePointLinkId, LinkError>(
                TracePointLinkId(old(self).data.links@.len() as usize),
            ) && final(self).data.links@ == old(self).data.links@.push(
                Some(TracePointLink { fd: link_fd }),
            ) && final(self).data.fd == old(self).data.fd,
    {
        match self.data.fd {
            None => Err(LinkError::NotLoaded),
            Some(_) => {
                let id = self.data.links.len();
                self.data.links.push(Some(TracePointLink { fd: link_fd }));
                Ok(TracePointLinkId(id))
            },
        }
    }

    /// Removes the attachment a link id names from the registry.  Fails
    /// with `InvalidLink`, changing nothing, if the id names no live
    /// attachment — never attached, already detached, or already taken.
    /// (The runtime half of detaching, closing the link's descriptor, is
    /// the embedding's to perform; use [`TracePoint::take_link`] to keep
    /// the descriptor.)
    pub fn detach(&mut self, link_id: TracePointLinkId) -> (r: Result<(), LinkError>)
        ensures
            match r {
                Ok(()) => {
                    &&& old(self).data.links@[link_id.0 as int] is Some
                    &&& final(self).data.links@ == old(self).data.links@.update(
                        link_id.0 as int,
                        None,
                    )
                    &&& final(self).data.fd == old(self).data.fd
                },
                Err(e) => {
                    &&& e == LinkError::InvalidLink
                    &&& *final(self) == *old(self)
                    &&& !(link_id.0 < old(self).data.links@.len() && old(self).data.links@[
                        link_id.0 as int
                    ] is Some)
                },
            },
    {
        if link_id.0 < self.data.links.len() {
            if self.data.links[link_id.0].is_some() {
                self.data.links[link_id.0] = None;
                return Ok(());
            }
        }
        Err(LinkError::InvalidLink)
    }

    /// Takes ownership of the link a link id names, removing it from the
    /// registry: the caller now answers for the attachment's lifetime.
    /// Fails with `InvalidLink`, changing nothing, if the id names no live
    /// attachment.
    pub fn take_link(&mut self, link_id: TracePointLinkId) -> (r: Result<
        TracePointLink,
        LinkError,
    >)
        ensures
            match r {
                Ok(link) => {
                    &&& old(self).data.links@[link_id.0 as int] == Some(link)
                    &&& final(self).data.links@ == old(self).data.links@.update(
                        link_id.0 as int,
                        None,
                    )
                    &&& final(self).data.fd == old(self).data.fd
                },
                Err(e) => {
                    &&& e == LinkError::InvalidLink
                    &&& *final(self) == *old(self)
                    &&& !(link_id.0 < old(self).data.links@.len() && old(self).data.links@[
                        link_id.0 as int
                    ] is Some)
                },
            },
    {
        if link_id.0 < self.data.links.len() {
            match self.data.links[link_id.0] {
                Some(link) => {
                    self.data.links[link_id.0] = None;
                    return Ok(link);
                },
                None => {
                    return Err(LinkError::InvalidLink);
                },
            }
        }
        Err(LinkError::InvalidLink)
    }
}

impl RawTracePoint {
    /// A program that is not yet loaded.
    pub fn new() -> (r: RawTracePoint)
        ensures
            r.data.fd is None,
            r.data.links@ =~= Seq::<Option<TracePointLink>>::empty(),
    {
        RawTracePoint { data: ProgramData::new() }
    }

    /// Records the program as loaded under the descriptor the runtime
    /// returned for it.  Fails with `AlreadyLoaded`, changing nothing, if
    /// the program was already loaded.
    pub fn load(&mut self, prog_fd: i32) -> (r: Result<(), ProgramError>)
        ensures
            old(self).data.fd is Some ==> r == Err::<(), ProgramError>(ProgramError::AlreadyLoaded)
                && *final(self) == *old(self),
            old(self).data.fd is None ==> r == Ok::<(), ProgramError>(()) && final(self).data.fd
                == Some(prog_fd) && final(self).data.links == old(self).data.links,
    {
        match self.data.fd {
            Some(_) => Err(ProgramError::AlreadyLoaded),
            None => {
                self.data.fd = Some(prog_fd);
                Ok(())
            },
        }
    }
}

} // verus!
