//! The single shared session state: configuration, the wallet and signer
//! registries, the asset metadata cache, and the server lifecycle flags.
use vstd::prelude::*;
use vstd::string::*;

use crate::errors::Error;
use crate::registry::Registry;
use crate::signers::AppSigner;

verus! {

/// Immutable server configuration, fixed at server start.
pub struct Config {
    /// The network the wallets are bound to.
    pub network: String,
    /// Directory where wallet data is persisted by the wallet engine.
    pub datadir: String,
    /// Address of the blockchain endpoint.
    pub electrum_url: String,
    /// Whether the blockchain endpoint connection uses TLS.
    pub tls: bool,
    /// Whether the endpoint's domain is validated.
    pub validate_domain: bool,
    /// The chain's native policy asset identifier, 64 hex digits.
    pub policy_asset: String,
}

/// Descriptive metadata cached for a known asset identifier.
pub struct Asset {
    pub name: String,
}

/// A wallet entry: the descriptor it was loaded with. The live wallet
/// capability object bound to this descriptor is owned by the caller that
/// performs engine actions.
pub struct WalletEntry {
    pub descriptor: String,
}

/// The name under which the chain's native asset is pre-registered.
pub open spec fn policy_asset_name() -> Seq<char> {
    "policy asset"@
}

/// The process-wide state guarded by the caller's single lock.
pub struct State {
    pub config: Config,
    pub wallets: Registry<WalletEntry>,
    pub signers: Registry<AppSigner>,
    pub assets: Registry<Asset>,
}

impl State {
    pub open spec fn wf(&self) -> bool {
        self.wallets.wf() && self.signers.wf() && self.assets.wf()
    }

    /// Fresh state for a starting server: empty registries, with the
    /// configured policy asset pre-registered in the asset cache.
    pub fn new(config: Config) -> (s: State)
        ensures
            s.wf(),
            s.config == config,
            s.wallets.as_map() =~= Map::<Seq<char>, WalletEntry>::empty(),
            s.signers.as_map() =~= Map::<Seq<char>, AppSigner>::empty(),
            s.assets.as_map().dom() =~= set![config.policy_asset@],
            s.assets.as_map()[config.policy_asset@].name@ == policy_asset_name(),
    {
        let mut assets: Registry<Asset> = Registry::new();
        let r = assets.insert(
            config.policy_asset.clone(),
            Asset { name: String::from_str("policy asset") },
        );
        proof {
            assert(r is Ok);
        }
        State {
            config,
            wallets: Registry::new(),
            signers: Registry::new(),
            assets,
        }
    }
}

/// The server's lifecycle: the decisions behind starting, stopping and
/// inspecting the transport, kept apart from the transport itself.
pub struct Lifecycle {
    /// Whether the transport has been created by a start.
    pub started: bool,
    /// Whether the transport is still serving requests.
    pub running: bool,
}

impl Lifecycle {
    pub fn new() -> (l: Lifecycle)
        ensures
            !l.started,
            !l.running,
    {
        Lifecycle { started: false, running: false }
    }

    /// Starting twice fails; otherwise the server is started and running.
    pub fn start(&mut self) -> (r: Result<(), Error>)
        ensures
            match r {
                Ok(()) => !old(self).started && final(self).started && final(self).running,
                Err(e) => old(self).started && e == Error::AlreadyStarted && *final(self) == *old(
                    self,
                ),
            },
    {
        if self.started {
            return Err(Error::AlreadyStarted);
        }
        self.started = true;
        self.running = true;
        Ok(())
    }

    /// Stopping a never-started server fails; otherwise the server stops
    /// serving but remains joinable.
    pub fn stop(&mut self) -> (r: Result<(), Error>)
        ensures
            match r {
                Ok(()) => old(self).started && final(self).started && !final(self).running,
                Err(e) => !old(self).started && e == Error::NotStarted && *final(self) == *old(
                    self,
                ),
            },
    {
        if !self.started {
            return Err(Error::NotStarted);
        }
        self.running = false;
        Ok(())
    }

    /// Whether the server is serving; asking a never-started server fails.
    pub fn is_running(&self) -> (r: Result<bool, Error>)
        ensures
            match r {
                Ok(b) => self.started && b == self.running,
                Err(e) => !self.started && e == Error::NotStarted,
            },
    {
        if !self.started {
            return Err(Error::NotStarted);
        }
        Ok(self.running)
    }

    /// Joining takes the transport back; a never-started server fails.
    pub fn join(&mut self) -> (r: Result<(), Error>)
        ensures
            match r {
                Ok(()) => old(self).started && !final(self).started && !final(self).running,
                Err(e) => !old(self).started && e == Error::NotStarted && *final(self) == *old(
                    self,
                ),
            },
    {
        if !self.started {
            return Err(Error::NotStarted);
        }
        self.started = false;
        self.running = false;
        Ok(())
    }
}

} // verus!
