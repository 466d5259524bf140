//! The configuration of the edge proxy.
use crate::edge::LB;
use vstd::prelude::*;

verus! {

/// The configuration of the edge proxy.
#[derive(Debug)]
pub struct ProxyConfig {
    pub listen_address: String,
    /// The address and port for metrics, as they are written.
    pub metrics_address: Option<String>,
    pub backends: BackendConfig,
    pub chain_identifier: String,
    pub tls: Option<TlsConfig>,
    pub local_override: bool,
    pub custom_peer: PeerConfig,
    pub default_peer: PeerConfig,
}

/// The nodes behind the proxy.
#[derive(Debug)]
pub struct BackendConfig {
    pub read_nodes: Vec<String>,
    pub execution_nodes: Vec<String>,
}

/// The certificate that the proxy shows, and the name that it shows it for.
#[derive(Debug)]
pub struct TlsConfig {
    pub cert_path: String,
    pub key_path: String,
    pub sni: String,
}

/// A peer that requests are passed on to.
#[derive(Debug)]
pub struct PeerConfig {
    pub address: String,
    pub use_tls: bool,
    pub sni: String,
}

impl Clone for PeerConfig {
    fn clone(&self) -> (copy: Self)
        ensures
            copy == *self,
    {
        PeerConfig {
            address: self.address.clone(),
            use_tls: self.use_tls,
            sni: self.sni.clone(),
        }
    }
}

impl Clone for TlsConfig {
    fn clone(&self) -> (copy: Self)
        ensures
            copy == *self,
    {
        TlsConfig {
            cert_path: self.cert_path.clone(),
            key_path: self.key_path.clone(),
            sni: self.sni.clone(),
        }
    }
}

impl Clone for BackendConfig {
    fn clone(&self) -> (copy: Self)
        ensures
            copy.read_nodes@ == self.read_nodes@,
            copy.execution_nodes@ == self.execution_nodes@,
    {
        BackendConfig {
            read_nodes: self.read_nodes.clone(),
            execution_nodes: self.execution_nodes.clone(),
        }
    }
}

impl Clone for ProxyConfig {
    fn clone(&self) -> (copy: Self)
        ensures
            copy.listen_address == self.listen_address,
            copy.metrics_address == self.metrics_address,
            copy.backends.read_nodes@ == self.backends.read_nodes@,
            copy.backends.execution_nodes@ == self.backends.execution_nodes@,
            copy.chain_identifier == self.chain_identifier,
            copy.tls == self.tls,
            copy.local_override == self.local_override,
            copy.custom_peer == self.custom_peer,
            copy.default_peer == self.default_peer,
    {
        ProxyConfig {
            listen_address: self.listen_address.clone(),
            metrics_address: self.metrics_address.clone(),
            backends: self.backends.clone(),
            chain_identifier: self.chain_identifier.clone(),
            tls: self.tls.clone(),
            local_override: self.local_override,
            custom_peer: self.custom_peer.clone(),
            default_peer: self.default_peer.clone(),
        }
    }
}

/// How the proxy listens.
#[derive(Debug)]
pub enum Listener {
    Tls { address: String, cert_path: String, key_path: String, sni: String },
    Tcp { address: String },
}

/// What `Listener` stands for.
pub enum ListenerView {
    Tls { address: Seq<char>, cert_path: Seq<char>, key_path: Seq<char>, sni: Seq<char> },
    Tcp { address: Seq<char> },
}

impl View for Listener {
    type V = ListenerView;

    open spec fn view(&self) -> ListenerView {
        match self {
            Listener::Tls { address, cert_path, key_path, sni } => ListenerView::Tls {
                address: address@,
                cert_path: cert_path@,
                key_path: key_path@,
                sni: sni@,
            },
            Listener::Tcp { address } => ListenerView::Tcp { address: address@ },
        }
    }
}

impl ProxyConfig {
    /// How the proxy listens: with TLS where there is a configuration for it, in the clear where
    /// there is none.
    pub fn listener(&self) -> (listener: Listener)
        ensures
            listener@ == match self.tls {
                Some(tls) => ListenerView::Tls {
                    address: self.listen_address@,
                    cert_path: tls.cert_path@,
                    key_path: tls.key_path@,
                    sni: tls.sni@,
                },
                None => ListenerView::Tcp { address: self.listen_address@ },
            },
            match listener {
                Listener::Tls { address, cert_path, key_path, sni } => {
                    &&& self.tls is Some
                    &&& address@ == self.listen_address@
                    &&& cert_path@ == self.tls->0.cert_path@
                    &&& key_path@ == self.tls->0.key_path@
                    &&& sni@ == self.tls->0.sni@
                },
                Listener::Tcp { address } => self.tls is None && address@ == self.listen_address@,
            },
    {
        match &self.tls {
            Some(tls) => Listener::Tls {
                address: self.listen_address.clone(),
                cert_path: tls.cert_path.clone(),
                key_path: tls.key_path.clone(),
                sni: tls.sni.clone(),
            },
            None => Listener::Tcp { address: self.listen_address.clone() },
        }
    }

    /// The load balancer: reads go to the default peer, executions to the custom one.
    pub fn load_balancer(&self) -> (lb: LB)
        ensures
            lb.read_peer() == self.default_peer,
            lb.execution_peer() == self.custom_peer,
    {
        LB::new(self.default_peer.clone(), self.custom_peer.clone())
    }
}

} // verus!
