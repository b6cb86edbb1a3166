//! The hardware surface the controller drives, and the in-memory backend
//! used by tests and the `--mock` command-line path. The real HID backend
//! lives in the application.

use vstd::prelude::*;

use crate::error::Error;
use crate::model::{DeviceState, LightingConfig};
use crate::text::owned;

verus! {

/// The minimal hardware surface the rest of the app needs. `apply` is the
/// only strictly required capability; `read_state` may answer
/// `Error::Unsupported`.
pub trait LightingBackend {
    /// Send a full lighting configuration to the hardware. The in-memory
    /// backend answers as [`mock_apply`] says; other backends stay other
    /// backends.
    fn apply(&mut self, cfg: LightingConfig) -> (r: Result<(), Error>)
        ensures
            old(self).mock_state() is None ==> final(self).mock_state() is None,
            old(self).mock_state() matches Some(m) ==> (final(self).mock_state() matches Some(f)
                && mock_apply(m, cfg, r, f)),
    ;

    /// Read the current lighting state back from the controller. The
    /// in-memory backend answers as [`mock_read`] says and is unchanged.
    fn read_state(&mut self) -> (r: Result<DeviceState, Error>)
        ensures
            old(self).mock_state() is None ==> final(self).mock_state() is None,
            old(self).mock_state() matches Some(m) ==> final(self).mock_state() == Some(m)
                && mock_read(m, r),
    ;

    /// The in-memory backend's whole state, when this backend is the
    /// in-memory one; none for any other backend.
    open spec fn mock_state(&self) -> Option<MockBackend> {
        None
    }

    /// Human-readable device description for UI/CLI output (the in-memory
    /// backend reports its `desc`).
    fn device_desc(&self) -> (d: String)
        ensures
            self.mock_state() matches Some(m) ==> d@ == m.desc@,
    ;

    /// The in-memory backend behind this one, for tests that reach into it:
    /// the backend itself when it is the in-memory one, otherwise none.
    fn as_mock_mut(&mut self) -> (r: Option<&mut MockBackend>)
        ensures
            old(self).mock_state() is None ==> r is None,
        default_ensures
            r is None,
    {
        None
    }
}

/// What the in-memory backend `before` does for `apply(cfg)`: with a
/// failure set it returns that error and records nothing; otherwise it
/// succeeds and records the normalised config once, at the end.
pub open spec fn mock_apply(
    before: MockBackend,
    cfg: LightingConfig,
    r: Result<(), Error>,
    after: MockBackend,
) -> bool {
    match before.fail_apply {
        Some(e) => r == Err::<(), Error>(e) && after == before,
        None => {
            &&& r is Ok
            &&& after.applied@ == before.applied@.push(cfg.normal_form())
            &&& after.state == before.state
            &&& after.fail_apply == before.fail_apply
            &&& after.fail_read == before.fail_read
            &&& after.desc == before.desc
        },
    }
}

/// What the in-memory backend `m` answers to `read_state()`: its read
/// failure if one is set, otherwise its state, otherwise an unsupported
/// error.
pub open spec fn mock_read(m: MockBackend, r: Result<DeviceState, Error>) -> bool {
    match m.fail_read {
        Some(e) => r == Err::<DeviceState, Error>(e),
        None => match m.state {
            Some(s) => r == Ok::<DeviceState, Error>(s),
            None => r matches Err(Error::Unsupported(msg)) && msg@ == MOCK_NO_STATE@,
        },
    }
}

/// In-memory backend: records every applied config and serves a
/// configurable state, with fault injection for error paths.
#[derive(Debug)]
pub struct MockBackend {
    /// Every config applied, in order (normalised form).
    pub applied: Vec<LightingConfig>,
    /// State served by `read_state`.
    pub state: Option<DeviceState>,
    /// When set, `apply` fails with this error.
    pub fail_apply: Option<Error>,
    /// When set, `read_state` fails with this error.
    pub fail_read: Option<Error>,
    pub desc: String,
}

pub const MOCK_DESC: &'static str = "mock controller 048d:c993";

pub const MOCK_NO_STATE: &'static str = "mock has no state configured — set MockBackend::state";

impl MockBackend {
    pub fn new() -> (m: Self)
        ensures
            m.applied@.len() == 0,
            m.state is None,
            m.fail_apply is None,
            m.fail_read is None,
            m.desc@ == MOCK_DESC@,
    {
        MockBackend {
            applied: Vec::new(),
            state: None,
            fail_apply: None,
            fail_read: None,
            desc: owned(MOCK_DESC),
        }
    }

    /// The last config applied, if any.
    pub fn last_applied(&self) -> (c: Option<LightingConfig>)
        ensures
            self.applied@.len() == 0 ==> c is None,
            self.applied@.len() > 0 ==> c == Some(self.applied@.last()),
    {
        if self.applied.len() == 0 {
            None
        } else {
            Some(self.applied[self.applied.len() - 1])
        }
    }
}

impl LightingBackend for MockBackend {
    fn apply(&mut self, cfg: LightingConfig) -> (r: Result<(), Error>)
        ensures
            old(self).fail_apply matches Some(e) ==> r == Err::<(), Error>(e) && final(self).applied
                == old(self).applied,
            old(self).fail_apply is None ==> r is Ok && final(self).applied@ == old(self).applied@.push(
                cfg.normal_form(),
            ),
    {
        match &self.fail_apply {
            Some(e) => {
                return Err(e.duplicate());
            },
            None => {},
        }
        self.applied.push(cfg.normalized());
        Ok(())
    }

    fn read_state(&mut self) -> (r: Result<DeviceState, Error>)
        ensures
            old(self).fail_read matches Some(e) ==> r == Err::<DeviceState, Error>(e),
            old(self).fail_read is None ==> (old(self).state matches Some(s) ==> r == Ok::<
                DeviceState,
                Error,
            >(s)),
            old(self).fail_read is None && old(self).state is None ==> (r matches Err(
                Error::Unsupported(m),
            ) && m@ == MOCK_NO_STATE@),
    {
        match &self.fail_read {
            Some(e) => {
                return Err(e.duplicate());
            },
            None => {},
        }
        match self.state {
            Some(s) => Ok(s),
            None => Err(Error::Unsupported(owned(MOCK_NO_STATE))),
        }
    }

    open spec fn mock_state(&self) -> Option<MockBackend> {
        Some(*self)
    }

    fn device_desc(&self) -> (d: String)
        ensures
            d@ == self.desc@,
    {
        self.desc.clone()
    }

    fn as_mock_mut(&mut self) -> (r: Option<&mut MockBackend>)
        ensures
            r matches Some(m) && *m == *old(self) && *final(self) == *final(m),
    {
        Some(self)
    }
}

} // verus!
