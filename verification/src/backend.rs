//! Backend Config Builder: resolves the effective network-backend
//! configuration from the supplied backend options, with a fixed
//! precedence — an Esplora base URL, when supplied, always wins;
//! otherwise the Electrum options (which always have defaults) are used,
//! so construction never fails.

use vstd::prelude::*;
use crate::commands::opt_string_view;

verus! {

/// Electrum backend options; every field has a default, so they are
/// always present.
#[derive(Clone, Debug, PartialEq)]
pub struct ElectrumOpts {
    pub electrum: String,
    pub proxy: Option<String>,
    pub retries: u8,
    pub timeout: Option<u8>,
}

/// Esplora backend options; the base URL is only present when supplied.
#[derive(Clone, Debug, PartialEq)]
pub struct EsploraOpts {
    pub esplora: Option<String>,
    pub esplora_concurrency: u8,
}

/// Wallet selection and backend options for one session.
#[derive(Clone, Debug, PartialEq)]
pub struct WalletOpts {
    pub wallet: String,
    pub descriptor: String,
    pub change_descriptor: Option<String>,
    pub electrum_opts: ElectrumOpts,
    pub esplora_opts: EsploraOpts,
}

/// The effective backend configuration: exactly one variant is active
/// per session, never both.
#[derive(Clone, Debug, PartialEq)]
pub enum BackendConfig {
    Electrum { url: String, proxy: Option<String>, retry_count: u8, timeout: Option<u8> },
    Esplora { base_url: String, concurrency: u8 },
}

/// Mathematical model of `ElectrumOpts`.
pub struct ElectrumOptsV {
    pub electrum: Seq<char>,
    pub proxy: Option<Seq<char>>,
    pub retries: u8,
    pub timeout: Option<u8>,
}

/// Mathematical model of `EsploraOpts`.
pub struct EsploraOptsV {
    pub esplora: Option<Seq<char>>,
    pub esplora_concurrency: u8,
}

/// Mathematical model of `WalletOpts`.
pub struct WalletOptsV {
    pub wallet: Seq<char>,
    pub descriptor: Seq<char>,
    pub change_descriptor: Option<Seq<char>>,
    pub electrum_opts: ElectrumOptsV,
    pub esplora_opts: EsploraOptsV,
}

/// Mathematical model of `BackendConfig`.
pub enum BackendConfigV {
    Electrum { url: Seq<char>, proxy: Option<Seq<char>>, retry_count: u8, timeout: Option<u8> },
    Esplora { base_url: Seq<char>, concurrency: u8 },
}

impl View for ElectrumOpts {
    type V = ElectrumOptsV;

    open spec fn view(&self) -> ElectrumOptsV {
        ElectrumOptsV {
            electrum: self.electrum@,
            proxy: opt_string_view(self.proxy),
            retries: self.retries,
            timeout: self.timeout,
        }
    }
}

impl View for EsploraOpts {
    type V = EsploraOptsV;

    open spec fn view(&self) -> EsploraOptsV {
        EsploraOptsV {
            esplora: opt_string_view(self.esplora),
            esplora_concurrency: self.esplora_concurrency,
        }
    }
}

impl View for WalletOpts {
    type V = WalletOptsV;

    open spec fn view(&self) -> WalletOptsV {
        WalletOptsV {
            wallet: self.wallet@,
            descriptor: self.descriptor@,
            change_descriptor: opt_string_view(self.change_descriptor),
            electrum_opts: self.electrum_opts@,
            esplora_opts: self.esplora_opts@,
        }
    }
}

impl View for BackendConfig {
    type V = BackendConfigV;

    open spec fn view(&self) -> BackendConfigV {
        match self {
            BackendConfig::Electrum { url, proxy, retry_count, timeout } => {
                BackendConfigV::Electrum {
                    url: url@,
                    proxy: opt_string_view(*proxy),
                    retry_count: *retry_count,
                    timeout: *timeout,
                }
            },
            BackendConfig::Esplora { base_url, concurrency } => {
                BackendConfigV::Esplora { base_url: base_url@, concurrency: *concurrency }
            },
        }
    }
}

/// The backend configuration the options denote: Esplora when its base
/// URL was supplied, else Electrum.
pub open spec fn backend_config_of(w: WalletOptsV) -> BackendConfigV {
    match w.esplora_opts.esplora {
        Some(u) => BackendConfigV::Esplora {
            base_url: u,
            concurrency: w.esplora_opts.esplora_concurrency,
        },
        None => BackendConfigV::Electrum {
            url: w.electrum_opts.electrum,
            proxy: w.electrum_opts.proxy,
            retry_count: w.electrum_opts.retries,
            timeout: w.electrum_opts.timeout,
        },
    }
}

/// Clone an optional string, preserving its model.
pub fn opt_string_clone(o: &Option<String>) -> (r: Option<String>)
    ensures
        opt_string_view(r) == opt_string_view(*o),
{
    match o {
        Some(s) => Some(s.clone()),
        None => None,
    }
}

/// Build the effective backend configuration. Total: never fails.
pub fn build_backend_config(opts: &WalletOpts) -> (c: BackendConfig)
    ensures
        c@ == backend_config_of(opts@),
{
    match &opts.esplora_opts.esplora {
        Some(u) => BackendConfig::Esplora {
            base_url: u.clone(),
            concurrency: opts.esplora_opts.esplora_concurrency,
        },
        None => BackendConfig::Electrum {
            url: opts.electrum_opts.electrum.clone(),
            proxy: opt_string_clone(&opts.electrum_opts.proxy),
            retry_count: opts.electrum_opts.retries,
            timeout: opts.electrum_opts.timeout,
        },
    }
}

/// Law: the builder's precedence. With an Esplora base URL supplied the
/// result is always the Esplora variant, built from the Esplora options;
/// without one it is always the Electrum variant, built from the
/// Electrum options.
pub proof fn lemma_backend_precedence(w: WalletOptsV)
    ensures
        w.esplora_opts.esplora is Some ==> backend_config_of(w) == (BackendConfigV::Esplora {
            base_url: w.esplora_opts.esplora->0,
            concurrency: w.esplora_opts.esplora_concurrency,
        }),
        w.esplora_opts.esplora is None ==> backend_config_of(w) == (BackendConfigV::Electrum {
            url: w.electrum_opts.electrum,
            proxy: w.electrum_opts.proxy,
            retry_count: w.electrum_opts.retries,
            timeout: w.electrum_opts.timeout,
        }),
{
}

} // verus!
