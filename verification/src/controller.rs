//! The small stateful layer the GUI and CLI share: it owns a backend,
//! remembers the last configuration applied and keeps the last error
//! visible instead of swallowing it.

use vstd::prelude::*;

use crate::backend::{mock_apply, mock_read, LightingBackend, MockBackend, MOCK_DESC};
use crate::error::Error;
use crate::model::{DeviceState, LightingConfig};

verus! {

pub struct Controller {
    backend: Box<dyn LightingBackend>,
    last_config: Option<LightingConfig>,
    last_error: Option<Error>,
}

impl Controller {
    /// What was last successfully applied in this session (normalised).
    pub closed spec fn applied(&self) -> Option<LightingConfig> {
        self.last_config
    }

    /// The error of the last operation, cleared by the next success.
    pub closed spec fn failure(&self) -> Option<Error> {
        self.last_error
    }

    /// The state of the in-memory backend this controller drives, when it
    /// drives the in-memory one.
    pub closed spec fn mock(&self) -> Option<MockBackend> {
        self.backend.mock_state()
    }

    /// The result the last operation left: `Ok` without an error, that
    /// error otherwise.
    pub open spec fn outcome(&self) -> Result<(), Error> {
        match self.failure() {
            None => Ok(()),
            Some(e) => Err(e),
        }
    }

    /// `after` is `before` once `cfg` was sent through `apply`: an
    /// in-memory backend answered as [`mock_apply`] says, giving the
    /// controller's outcome; any other backend stays another backend.
    pub open spec fn sent(before: Controller, after: Controller, cfg: LightingConfig) -> bool {
        &&& before.mock() is None ==> after.mock() is None
        &&& before.mock() matches Some(m) ==> (after.mock() matches Some(f) && mock_apply(
            m,
            cfg,
            after.outcome(),
            f,
        ))
    }

    /// Wrap any backend (the hardware one, or the in-memory one): the
    /// controller drives exactly the backend it is given, with nothing
    /// applied yet and no error.
    pub fn new(backend: Box<dyn LightingBackend>) -> (c: Self)
        ensures
            c.mock() == (*backend).mock_state(),
            c.applied() is None,
            c.failure() is None,
    {
        // Moved in by a swap: storing the box directly goes through an
        // unsizing coercion, and Verus knows nothing of that coercion's
        // result.
        let mut given = backend;
        let mut c = Controller::in_memory();
        std::mem::swap(&mut c.backend, &mut given);
        c
    }

    /// A controller driving a fresh in-memory backend (the command line's
    /// `--mock` path): nothing recorded, no state to read back.
    pub fn in_memory() -> (c: Self)
        ensures
            c.mock() matches Some(m) && m.applied@.len() == 0 && m.state is None
                && m.fail_apply is None && m.fail_read is None && m.desc@ == MOCK_DESC@,
            c.applied() is None,
            c.failure() is None,
    {
        let backend: Box<MockBackend> = Box::new(MockBackend::new());
        Controller { backend, last_config: None, last_error: None }
    }

    /// Apply a full lighting configuration. One packet describes the whole
    /// keyboard, so every change re-sends the complete config. On success
    /// the normalised config is remembered and the error cleared; on
    /// failure the error is remembered and the last good config kept.
    pub fn apply(&mut self, cfg: LightingConfig) -> (r: Result<(), Error>)
        ensures
            r is Ok ==> final(self).applied() == Some(cfg.normal_form()) && final(self).failure() is None,
            r matches Err(e) ==> final(self).failure() == Some(e) && final(self).applied() == old(self).applied(),
            old(self).mock() is None ==> final(self).mock() is None,
            old(self).mock() matches Some(m) ==> (final(self).mock() matches Some(f) && mock_apply(
                m,
                cfg,
                r,
                f,
            )),
    {
        match self.backend.apply(cfg) {
            Ok(()) => {
                self.last_config = Some(cfg.normalized());
                self.last_error = None;
                Ok(())
            },
            Err(e) => {
                self.last_error = Some(e.duplicate());
                Err(e)
            },
        }
    }

    /// Read the current hardware state, if the controller supports it.
    pub fn read_state(&mut self) -> (r: Result<DeviceState, Error>)
        ensures
            final(self).applied() == old(self).applied(),
            r is Ok ==> final(self).failure() is None,
            r matches Err(e) ==> final(self).failure() == Some(e),
            old(self).mock() is None ==> final(self).mock() is None,
            old(self).mock() matches Some(m) ==> final(self).mock() == Some(m) && mock_read(m, r),
    {
        match self.backend.read_state() {
            Ok(s) => {
                self.last_error = None;
                Ok(s)
            },
            Err(e) => {
                self.last_error = Some(e.duplicate());
                Err(e)
            },
        }
    }

    /// What was last successfully applied in this session.
    pub fn last_config(&self) -> (c: Option<&LightingConfig>)
        ensures
            self.applied() is None ==> c is None,
            self.applied() matches Some(a) ==> (c matches Some(x) && *x == a),
    {
        self.last_config.as_ref()
    }

    /// Last error for the UI banner; cleared on the next successful op.
    pub fn last_error(&self) -> (e: Option<&Error>)
        ensures
            self.failure() is None ==> e is None,
            self.failure() matches Some(f) ==> (e matches Some(x) && *x == f),
    {
        self.last_error.as_ref()
    }

    /// The backend's device description.
    pub fn device_desc(&self) -> (d: String)
        ensures
            self.mock() matches Some(m) ==> d@ == m.desc@,
    {
        self.backend.device_desc()
    }

    /// Mutable access to the underlying backend (tests, advanced use):
    /// whatever is done through it is what the controller then drives; the
    /// remembered config and error stay.
    pub fn backend_mut(&mut self) -> (b: &mut Box<dyn LightingBackend>)
        ensures
            (*b).mock_state() == old(self).mock(),
            final(self).mock() == (*final(b)).mock_state(),
            final(self).applied() == old(self).applied(),
            final(self).failure() == old(self).failure(),
    {
        &mut self.backend
    }
}

} // verus!
