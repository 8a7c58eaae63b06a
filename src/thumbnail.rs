use vstd::prelude::*;
use crate::error::Error;
use crate::models::{local_uri, FileUri, FileUriView};

verus! {

/// The step a thumbnail fetch asks for next.
#[derive(Debug, Clone, Copy, PartialEq, Eq, Structural)]
pub enum ThumbnailStep {
    /// Create the temporary file's parent directories. Best effort.
    CreateParentDirs,
    /// Create the empty temporary file.
    CreateTemp,
    /// Ask the storage peer to write the thumbnail into the temporary file.
    Request,
    /// Read the temporary file back.
    ReadTemp,
    /// Remove the temporary file.
    RemoveTemp,
    /// Nothing is left to do.
    Done,
}

/// Where a thumbnail fetch stands, and what it will report.
pub struct ThumbnailState {
    pub step: ThumbnailStep,
    pub outcome: Result<Option<Vec<u8>>, Error>,
}

/// The state a fetch starts in.
pub open spec fn thumbnail_start() -> ThumbnailState {
    ThumbnailState { step: ThumbnailStep::CreateParentDirs, outcome: Ok(None) }
}

/// One fetch of a thumbnail of `source` through the temporary file at
/// `temp_path` in private storage.
///
/// The caller performs each step that [`ThumbnailFetch::step`] asks for and
/// reports it with the matching method; a report that does not match the
/// current step changes nothing. Whatever happens, the temporary file is
/// removed before the fetch is done; the first failure, if any, is the
/// result, and otherwise the thumbnail's bytes, or `None` when the peer could
/// not make one.
pub struct ThumbnailFetch {
    source: FileUri,
    temp_path: String,
    state: ThumbnailState,
}

impl ThumbnailFetch {
    pub closed spec fn spec_source(&self) -> FileUri {
        self.source
    }

    pub closed spec fn spec_temp_path(&self) -> Seq<char> {
        self.temp_path@
    }

    pub closed spec fn spec_state(&self) -> ThumbnailState {
        self.state
    }

    /// A fetch of a thumbnail of `source` through the temporary file at `temp_path`.
    pub fn new(source: FileUri, temp_path: String) -> (r: ThumbnailFetch)
        ensures
            r.spec_source() == source,
            r.spec_temp_path() == temp_path@,
            r.spec_state() == thumbnail_start(),
    {
        ThumbnailFetch {
            source,
            temp_path,
            state: ThumbnailState { step: ThumbnailStep::CreateParentDirs, outcome: Ok(None) },
        }
    }

    /// The step to perform now.
    pub fn step(&self) -> (r: ThumbnailStep)
        ensures
            r == self.spec_state().step,
    {
        self.state.step
    }

    /// The handle the thumbnail is made of.
    pub fn source(&self) -> (r: &FileUri)
        ensures
            *r == self.spec_source(),
    {
        &self.source
    }

    /// The local path of the temporary file.
    pub fn temp_path(&self) -> (r: &str)
        ensures
            r@ == self.spec_temp_path(),
    {
        self.temp_path.as_str()
    }

    /// The handle of the temporary file, where the peer writes the thumbnail.
    pub fn temp_uri(&self) -> (r: FileUri)
        ensures
            r@ == (FileUriView { uri: local_uri(self.spec_temp_path()), tree: None }),
    {
        FileUri::from_path(self.temp_path.as_str())
    }

    /// The parent directories were attempted; their creation is best effort.
    pub fn dirs_created(&mut self)
        ensures
            final(self).spec_source() == old(self).spec_source(),
            final(self).spec_temp_path() == old(self).spec_temp_path(),
            final(self).spec_state() == if old(self).spec_state().step is CreateParentDirs {
                ThumbnailState { step: ThumbnailStep::CreateTemp, outcome: old(self).spec_state().outcome }
            } else {
                old(self).spec_state()
            },
    {
        if let ThumbnailStep::CreateParentDirs = self.state.step {
            self.state.step = ThumbnailStep::CreateTemp;
        }
    }

    /// The temporary file was created, or could not be.
    pub fn temp_created(&mut self, r: Result<(), Error>)
        ensures
            final(self).spec_source() == old(self).spec_source(),
            final(self).spec_temp_path() == old(self).spec_temp_path(),
            final(self).spec_state() == if old(self).spec_state().step is CreateTemp {
                match r {
                    Ok(_) => ThumbnailState { step: ThumbnailStep::Request, outcome: old(self).spec_state().outcome },
                    Err(e) => ThumbnailState { step: ThumbnailStep::RemoveTemp, outcome: Err(e) },
                }
            } else {
                old(self).spec_state()
            },
    {
        if let ThumbnailStep::CreateTemp = self.state.step {
            match r {
                Ok(()) => {
                    self.state.step = ThumbnailStep::Request;
                },
                Err(e) => {
                    self.state = ThumbnailState { step: ThumbnailStep::RemoveTemp, outcome: Err(e) };
                },
            }
        }
    }

    /// The peer answered the request: whether it wrote a thumbnail.
    pub fn requested(&mut self, r: Result<bool, Error>)
        ensures
            final(self).spec_source() == old(self).spec_source(),
            final(self).spec_temp_path() == old(self).spec_temp_path(),
            final(self).spec_state() == if old(self).spec_state().step is Request {
                match r {
                    Ok(true) => ThumbnailState { step: ThumbnailStep::ReadTemp, outcome: old(self).spec_state().outcome },
                    Ok(false) => ThumbnailState { step: ThumbnailStep::RemoveTemp, outcome: Ok(None) },
                    Err(e) => ThumbnailState { step: ThumbnailStep::RemoveTemp, outcome: Err(e) },
                }
            } else {
                old(self).spec_state()
            },
    {
        if let ThumbnailStep::Request = self.state.step {
            match r {
                Ok(true) => {
                    self.state.step = ThumbnailStep::ReadTemp;
                },
                Ok(false) => {
                    self.state = ThumbnailState { step: ThumbnailStep::RemoveTemp, outcome: Ok(None) };
                },
                Err(e) => {
                    self.state = ThumbnailState { step: ThumbnailStep::RemoveTemp, outcome: Err(e) };
                },
            }
        }
    }

    /// The temporary file was read back, or could not be.
    pub fn read_done(&mut self, r: Result<Vec<u8>, Error>)
        ensures
            final(self).spec_source() == old(self).spec_source(),
            final(self).spec_temp_path() == old(self).spec_temp_path(),
            final(self).spec_state() == if old(self).spec_state().step is ReadTemp {
                match r {
                    Ok(bytes) => ThumbnailState { step: ThumbnailStep::RemoveTemp, outcome: Ok(Some(bytes)) },
                    Err(e) => ThumbnailState { step: ThumbnailStep::RemoveTemp, outcome: Err(e) },
                }
            } else {
                old(self).spec_state()
            },
    {
        if let ThumbnailStep::ReadTemp = self.state.step {
            match r {
                Ok(bytes) => {
                    self.state = ThumbnailState { step: ThumbnailStep::RemoveTemp, outcome: Ok(Some(bytes)) };
                },
                Err(e) => {
                    self.state = ThumbnailState { step: ThumbnailStep::RemoveTemp, outcome: Err(e) };
                },
            }
        }
    }

    /// The temporary file was removed, or its removal failed; either way the
    /// result stands.
    pub fn removed(&mut self)
        ensures
            final(self).spec_source() == old(self).spec_source(),
            final(self).spec_temp_path() == old(self).spec_temp_path(),
            final(self).spec_state() == if old(self).spec_state().step is RemoveTemp {
                ThumbnailState { step: ThumbnailStep::Done, outcome: old(self).spec_state().outcome }
            } else {
                old(self).spec_state()
            },
    {
        if let ThumbnailStep::RemoveTemp = self.state.step {
            self.state.step = ThumbnailStep::Done;
        }
    }

    /// What the fetch came to.
    pub fn finish(self) -> (r: Result<Option<Vec<u8>>, Error>)
        requires
            self.spec_state().step is Done,
        ensures
            r == self.spec_state().outcome,
    {
        self.state.outcome
    }
}

} // verus!
