use crate::status::Error;
use libc::c_int;
use vstd::prelude::*;

verus! {

/// Result of opening the turntable when no turntable was found.
pub const CODE_NOT_FOUND: c_int = -300;

/// One step of tearing a session down, in the order they must be done.
#[derive(Clone, Copy, PartialEq, Eq, Structural, Debug)]
pub enum TeardownStep {
    /// Close the device handle.
    CloseHandle,
    /// Release the device library.
    ReleaseLibrary,
}

/// The bookkeeping of one session with the turntable: which of the two
/// nested resources (the initialized device library, and inside it the
/// device handle) are held, and whether the turntable connection is open.
///
/// The session is opened in three steps, each fed with what the device
/// library reported, and torn down by closing the handle and then releasing
/// the library, each only if it is held.
pub struct TurningTable {
    pub library_held: bool,
    pub handle_held: bool,
    pub open: bool,
}

/// The failure that opening the turntable connection reports, if any.
pub open spec fn open_error(result: int) -> Option<Error> {
    if result == 0 {
        None
    } else if result == CODE_NOT_FOUND {
        Some(Error::DeviceUnavailable)
    } else {
        Some(Error::UnknownError)
    }
}

impl TurningTable {
    /// The handle lives inside the library, and only an allocated handle can
    /// be open.
    pub open spec fn wf(self) -> bool {
        &&& self.handle_held ==> self.library_held
        &&& self.open ==> self.handle_held
    }

    /// A session that holds nothing.
    pub open spec fn fresh() -> TurningTable {
        TurningTable { library_held: false, handle_held: false, open: false }
    }

    /// The session after the library initialization reported `result`.
    pub open spec fn after_init(self, result: int) -> TurningTable {
        TurningTable { library_held: result == 0, ..self }
    }

    /// The session after handle allocation, successful or not.
    pub open spec fn after_allocate(self, allocated: bool) -> TurningTable {
        TurningTable { handle_held: allocated, ..self }
    }

    /// The session after opening the turntable connection reported `result`.
    pub open spec fn after_open(self, result: int) -> TurningTable {
        TurningTable { open: result == 0, ..self }
    }

    /// What a teardown of this session must do, in order: close the handle
    /// if one was allocated, then release the library if it was initialized.
    pub open spec fn teardown_plan(self) -> Seq<TeardownStep> {
        (if self.handle_held {
            seq![TeardownStep::CloseHandle]
        } else {
            Seq::empty()
        }) + (if self.library_held {
            seq![TeardownStep::ReleaseLibrary]
        } else {
            Seq::empty()
        })
    }

    /// A session that holds nothing yet.
    pub fn new() -> (r: TurningTable)
        ensures
            r == TurningTable::fresh(),
            r.wf(),
    {
        TurningTable { library_held: false, handle_held: false, open: false }
    }

    /// Takes in what the library initialization returned; a nonzero result
    /// means the license check failed and nothing is held.
    pub fn library_initialized(&mut self, result: c_int) -> (r: Result<(), Error>)
        requires
            *old(self) == TurningTable::fresh(),
        ensures
            *final(self) == old(self).after_init(result as int),
            final(self).wf(),
            r == (if result == 0 {
                Ok::<(), Error>(())
            } else {
                Err(Error::NotLicensed)
            }),
    {
        if result != 0 {
            return Err(Error::NotLicensed);
        }
        self.library_held = true;
        Ok(())
    }

    /// Takes in whether the library handed out a usable device handle.
    pub fn handle_allocated(&mut self, allocated: bool) -> (r: Result<(), Error>)
        requires
            old(self).wf(),
            old(self).library_held,
            !old(self).handle_held,
        ensures
            *final(self) == old(self).after_allocate(allocated),
            final(self).wf(),
            r == (if allocated {
                Ok::<(), Error>(())
            } else {
                Err(Error::UnknownError)
            }),
    {
        if !allocated {
            return Err(Error::UnknownError);
        }
        self.handle_held = true;
        Ok(())
    }

    /// Takes in what opening the turntable connection returned.
    pub fn turntable_opened(&mut self, result: c_int) -> (r: Result<(), Error>)
        requires
            old(self).wf(),
            old(self).handle_held,
            !old(self).open,
        ensures
            *final(self) == old(self).after_open(result as int),
            final(self).wf(),
            r == (match open_error(result as int) {
                None => Ok::<(), Error>(()),
                Some(e) => Err(e),
            }),
    {
        match result {
            0 => {
                self.open = true;
                Ok(())
            },
            CODE_NOT_FOUND => Err(Error::DeviceUnavailable),
            _ => Err(Error::UnknownError),
        }
    }

    /// Whether the turntable can be moved and queried.
    pub fn is_open(&self) -> (r: bool)
        ensures
            r == self.open,
    {
        self.open
    }

    /// Ends the session: returns the steps that free what is held, in the
    /// order to perform them, and from then on holds nothing.
    pub fn teardown(&mut self) -> (r: Vec<TeardownStep>)
        requires
            old(self).wf(),
        ensures
            r@ == old(self).teardown_plan(),
            *final(self) == TurningTable::fresh(),
    {
        let mut steps: Vec<TeardownStep> = Vec::new();
        if self.handle_held {
            steps.push(TeardownStep::CloseHandle);
        }
        if self.library_held {
            steps.push(TeardownStep::ReleaseLibrary);
        }
        proof {
            assert(steps@ =~= old(self).teardown_plan());
        }
        self.open = false;
        self.handle_held = false;
        self.library_held = false;
        steps
    }
}

/// Teardown frees each held resource exactly once, the handle before the
/// library: in particular, when opening the turntable fails after a handle
/// was allocated, teardown closes the handle and then releases the library,
/// and a second teardown does nothing.
pub proof fn lemma_teardown_after_failed_open(result: int)
    requires
        result != 0,
    ensures
        ({
            let t = TurningTable::fresh().after_init(0).after_allocate(true).after_open(result);
            &&& t.wf()
            &&& t.teardown_plan() == seq![TeardownStep::CloseHandle, TeardownStep::ReleaseLibrary]
            &&& TurningTable::fresh().teardown_plan() == Seq::<TeardownStep>::empty()
        }),
{
    let t = TurningTable::fresh().after_init(0).after_allocate(true).after_open(result);
    assert(t.teardown_plan() =~= seq![TeardownStep::CloseHandle, TeardownStep::ReleaseLibrary]);
    assert(TurningTable::fresh().teardown_plan() =~= Seq::<TeardownStep>::empty());
}

/// Every well-formed session is torn down by at most one close followed by at
/// most one release: each step appears once at most, and a close, if any,
/// comes first.
pub proof fn lemma_teardown_order(t: TurningTable)
    requires
        t.wf(),
    ensures
        t.teardown_plan().len() <= 2,
        t.teardown_plan().len() == 2 ==> t.teardown_plan() == seq![
            TeardownStep::CloseHandle,
            TeardownStep::ReleaseLibrary,
        ],
        t.teardown_plan().len() == 1 ==> t.teardown_plan() == seq![TeardownStep::ReleaseLibrary],
        t.library_held ==> t.teardown_plan().last() == TeardownStep::ReleaseLibrary,
{
    if t.handle_held {
        assert(t.teardown_plan() =~= seq![TeardownStep::CloseHandle, TeardownStep::ReleaseLibrary]);
    } else if t.library_held {
        assert(t.teardown_plan() =~= seq![TeardownStep::ReleaseLibrary]);
    } else {
        assert(t.teardown_plan() =~= Seq::<TeardownStep>::empty());
    }
}

} // verus!
