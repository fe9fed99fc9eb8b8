//! The engine's configuration state: what is desired, what is prepared and
//! what runs, with the latest requested and completed revisions.

use vstd::prelude::*;
use crate::runtime_config::{
    runtime_config_error_text, AppliedRuntimeConfig, ConfigRevision, PreparedRuntimeConfig,
    RuntimeConfigError, RuntimeConfigErrorView, VerifiedRuntimeConfig,
};
use crate::text::{concat, decimal, str_eq, u64_to_decimal};

verus! {

#[derive(Debug, Clone, PartialEq, Eq)]
pub enum RuntimeStateError {
    FingerprintMismatch { prepared: String, applied: String },
    StaleRevision { current: u64, attempted: u64 },
    ConfigError(RuntimeConfigError),
}

pub open spec fn runtime_state_error_text(e: RuntimeStateError) -> Seq<char> {
    match e {
        RuntimeStateError::FingerprintMismatch { prepared, applied } => "fingerprint mismatch between prepared ("@
            + prepared@ + ") and applied ("@ + applied@ + ") config"@,
        RuntimeStateError::StaleRevision { current, attempted } => "revision decreased from "@ + decimal(
            current as nat,
        ) + " to "@ + decimal(attempted as nat),
        RuntimeStateError::ConfigError(c) => runtime_config_error_text(c@),
    }
}

impl RuntimeStateError {
    /// The error's message, as its `Display` prints it.
    pub fn message(&self) -> (s: String)
        ensures
            s@ == runtime_state_error_text(*self),
    {
        match self {
            RuntimeStateError::FingerprintMismatch { prepared, applied } => {
                let s = concat("fingerprint mismatch between prepared (", prepared.as_str());
                let s = concat(s.as_str(), ") and applied (");
                let s = concat(s.as_str(), applied.as_str());
                concat(s.as_str(), ") config")
            },
            RuntimeStateError::StaleRevision { current, attempted } => {
                let s = concat("revision decreased from ", u64_to_decimal(*current).as_str());
                let s = concat(s.as_str(), " to ");
                concat(s.as_str(), u64_to_decimal(*attempted).as_str())
            },
            RuntimeStateError::ConfigError(c) => c.message(),
        }
    }
}

/// The configuration state of the engine. Both revisions only ever grow.
#[derive(Clone)]
pub struct RuntimeConfigState {
    desired: Option<VerifiedRuntimeConfig>,
    prepared: Option<PreparedRuntimeConfig>,
    applied: Option<AppliedRuntimeConfig>,
    latest_requested_revision: ConfigRevision,
    latest_completed_revision: ConfigRevision,
}

impl RuntimeConfigState {
    pub closed spec fn desired_spec(&self) -> Option<VerifiedRuntimeConfig> {
        self.desired
    }

    pub closed spec fn prepared_spec(&self) -> Option<PreparedRuntimeConfig> {
        self.prepared
    }

    pub closed spec fn applied_spec(&self) -> Option<AppliedRuntimeConfig> {
        self.applied
    }

    pub closed spec fn requested(&self) -> u64 {
        self.latest_requested_revision@
    }

    pub closed spec fn completed(&self) -> u64 {
        self.latest_completed_revision@
    }

    pub fn new(initial_revision: ConfigRevision) -> (s: Self)
        ensures
            s.desired_spec() is None,
            s.prepared_spec() is None,
            s.applied_spec() is None,
            s.requested() == initial_revision@,
            s.completed() == initial_revision@,
    {
        RuntimeConfigState {
            desired: None,
            prepared: None,
            applied: None,
            latest_requested_revision: initial_revision,
            latest_completed_revision: initial_revision,
        }
    }

    pub fn desired(&self) -> (r: Option<&VerifiedRuntimeConfig>)
        ensures
            match (r, self.desired_spec()) {
                (Some(a), Some(b)) => *a == b,
                (None, None) => true,
                _ => false,
            },
    {
        match &self.desired {
            Some(d) => Some(d),
            None => None,
        }
    }

    pub fn prepared(&self) -> (r: Option<&PreparedRuntimeConfig>)
        ensures
            match (r, self.prepared_spec()) {
                (Some(a), Some(b)) => *a == b,
                (None, None) => true,
                _ => false,
            },
    {
        match &self.prepared {
            Some(p) => Some(p),
            None => None,
        }
    }

    pub fn applied(&self) -> (r: Option<&AppliedRuntimeConfig>)
        ensures
            match (r, self.applied_spec()) {
                (Some(a), Some(b)) => *a == b,
                (None, None) => true,
                _ => false,
            },
    {
        match &self.applied {
            Some(a) => Some(a),
            None => None,
        }
    }

    pub fn latest_requested_revision(&self) -> (r: ConfigRevision)
        ensures
            r@ == self.requested(),
    {
        self.latest_requested_revision
    }

    pub fn latest_completed_revision(&self) -> (r: ConfigRevision)
        ensures
            r@ == self.completed(),
    {
        self.latest_completed_revision
    }

    /// Takes the next requested revision, failing at the maximum.
    pub fn advance_requested_revision(&mut self) -> (r: Result<ConfigRevision, RuntimeStateError>)
        ensures
            old(self).requested() < u64::MAX ==> (r matches Ok(n) && n@ == old(self).requested() + 1
                && final(self).requested() == n@),
            old(self).requested() == u64::MAX ==> (r == Err::<ConfigRevision, RuntimeStateError>(
                RuntimeStateError::ConfigError(RuntimeConfigError::RevisionOverflow),
            ) && final(self).requested() == old(self).requested()),
            final(self).completed() == old(self).completed(),
            final(self).desired_spec() == old(self).desired_spec(),
            final(self).prepared_spec() == old(self).prepared_spec(),
            final(self).applied_spec() == old(self).applied_spec(),
    {
        match self.latest_requested_revision.next() {
            Ok(next) => {
                self.latest_requested_revision = next;
                Ok(next)
            },
            Err(e) => Err(RuntimeStateError::ConfigError(e)),
        }
    }

    /// Records the desired configuration; the requested revision rises to
    /// its revision if that is higher.
    pub fn set_desired(&mut self, config: VerifiedRuntimeConfig)
        ensures
            final(self).desired_spec() == Some(config),
            final(self).requested() == (if config.revision@ > old(self).requested() {
                config.revision@
            } else {
                old(self).requested()
            }),
            final(self).completed() == old(self).completed(),
            final(self).prepared_spec() == old(self).prepared_spec(),
            final(self).applied_spec() == old(self).applied_spec(),
    {
        if config.revision.get() > self.latest_requested_revision.get() {
            self.latest_requested_revision = config.revision;
        }
        self.desired = Some(config);
    }

    pub fn set_prepared(&mut self, config: PreparedRuntimeConfig)
        ensures
            final(self).prepared_spec() == Some(config),
            final(self).desired_spec() == old(self).desired_spec(),
            final(self).applied_spec() == old(self).applied_spec(),
            final(self).requested() == old(self).requested(),
            final(self).completed() == old(self).completed(),
    {
        self.prepared = Some(config);
    }

    /// Records what the engine now runs. Refused when it is not the
    /// prepared configuration's content, or older than the last completed
    /// revision; then nothing changes.
    pub fn commit_applied(&mut self, config: AppliedRuntimeConfig) -> (r: Result<(), RuntimeStateError>)
        ensures
            ({
                let mismatch = old(self).prepared_spec() matches Some(p)
                    && p.verified.fingerprint@ != config.verified.fingerprint@;
                let stale = config.verified.revision@ < old(self).completed();
                &&& (r is Ok <==> !mismatch && !stale)
                &&& (mismatch ==> (r matches Err(RuntimeStateError::FingerprintMismatch { prepared, applied })
                    && prepared@ == old(self).prepared_spec()->0.verified.fingerprint@
                    && applied@ == config.verified.fingerprint@))
                &&& (!mismatch && stale ==> r == Err::<(), RuntimeStateError>(RuntimeStateError::StaleRevision {
                    current: old(self).completed(),
                    attempted: config.verified.revision@,
                }))
            }),
            r is Ok ==> final(self).applied_spec() == Some(config) && final(self).completed()
                == config.verified.revision@,
            r is Err ==> final(self).applied_spec() == old(self).applied_spec() && final(self).completed()
                == old(self).completed(),
            final(self).completed() >= old(self).completed(),
            final(self).desired_spec() == old(self).desired_spec(),
            final(self).prepared_spec() == old(self).prepared_spec(),
            final(self).requested() == old(self).requested(),
    {
        match &self.prepared {
            Some(prepared) => {
                if !str_eq(prepared.verified.fingerprint.as_str(), config.verified.fingerprint.as_str()) {
                    return Err(RuntimeStateError::FingerprintMismatch {
                        prepared: prepared.verified.fingerprint.to_text(),
                        applied: config.verified.fingerprint.to_text(),
                    });
                }
            },
            None => {},
        }
        if config.verified.revision.get() < self.latest_completed_revision.get() {
            return Err(RuntimeStateError::StaleRevision {
                current: self.latest_completed_revision.get(),
                attempted: config.verified.revision.get(),
            });
        }
        self.latest_completed_revision = config.verified.revision;
        self.applied = Some(config);
        Ok(())
    }

    /// Puts back a configuration that runs again after a failed change.
    pub fn restore_applied(&mut self, config: AppliedRuntimeConfig)
        ensures
            final(self).applied_spec() == Some(config),
            final(self).desired_spec() == old(self).desired_spec(),
            final(self).prepared_spec() == old(self).prepared_spec(),
            final(self).requested() == old(self).requested(),
            final(self).completed() == old(self).completed(),
    {
        self.applied = Some(config);
    }

    pub fn clear_applied(&mut self)
        ensures
            final(self).applied_spec() is None,
            final(self).desired_spec() == old(self).desired_spec(),
            final(self).prepared_spec() == old(self).prepared_spec(),
            final(self).requested() == old(self).requested(),
            final(self).completed() == old(self).completed(),
    {
        self.applied = None;
    }
}

} // verus!
