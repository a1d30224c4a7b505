use vstd::prelude::*;
use vstd::string::*;

verus! {

/// Address of a remote JMX server.
#[derive(Clone, Eq, PartialEq, Ord, PartialOrd, Hash, Debug)]
pub enum MBeanAddress {
    /// A bare "host:port" pair of an RMI registry.
    Address(String),
    /// A complete JMX service URL.
    ServiceUrl(String),
}

/// The JMX service URL of the default RMI connector at `host_port`:
/// `service:jmx:rmi://{host_port}/jndi/rmi://{host_port}/jmxrmi`.
pub open spec fn rmi_service_url(host_port: Seq<char>) -> Seq<char> {
    "service:jmx:rmi://"@ + host_port + "/jndi/rmi://"@ + host_port + "/jmxrmi"@
}

impl MBeanAddress {
    /// The service URL that a connection to this address uses.
    pub open spec fn spec_service_url(&self) -> Seq<char> {
        match self {
            MBeanAddress::Address(a) => rmi_service_url(a@),
            MBeanAddress::ServiceUrl(u) => u@,
        }
    }

    /// Address of the remote "host:port" JMX server, reached through the RMI
    /// registry at the default path "/jndi/rmi://{host}:{port}/jmxrmi".
    pub fn address(address: String) -> (r: MBeanAddress)
        ensures
            r == MBeanAddress::Address(address),
    {
        MBeanAddress::Address(address)
    }

    /// Address of the remote JMX server given by a complete service URL.
    pub fn service_url(service_url: String) -> (r: MBeanAddress)
        ensures
            r == MBeanAddress::ServiceUrl(service_url),
    {
        MBeanAddress::ServiceUrl(service_url)
    }

    /// The JMX service URL to connect to.
    pub fn connection_string(&self) -> (r: String)
        ensures
            r@ == self.spec_service_url(),
    {
        match self {
            MBeanAddress::Address(a) => {
                let r = String::from_str("service:jmx:rmi://").concat(a.as_str()).concat(
                    "/jndi/rmi://",
                ).concat(a.as_str()).concat("/jmxrmi");
                r
            },
            MBeanAddress::ServiceUrl(u) => u.clone(),
        }
    }
}

} // verus!
