use vstd::prelude::*;

use crate::capability_set::CapabilitySet;
use crate::model::{ErrorCode, IpcError, ProtocolVersion};
use crate::text::{decimal, push_decimal};

verus! {

/// The protocol version and capabilities that both peers agreed on.
#[derive(Clone, Debug, PartialEq, Eq)]
pub struct NegotiatedProtocol {
    pub version: ProtocolVersion,
    pub capabilities: CapabilitySet,
}

/// The smaller of two minor numbers.
pub open spec fn min_minor(a: u16, b: u16) -> u16 {
    if a <= b {
        a
    } else {
        b
    }
}

/// What negotiation agrees on: nothing when the major numbers differ;
/// otherwise the shared major number with the smaller minor number, and the
/// capabilities that both peers offer.
pub open spec fn spec_negotiate(
    client_version: ProtocolVersion,
    client_capabilities: Set<Seq<char>>,
    daemon_version: ProtocolVersion,
    daemon_capabilities: Set<Seq<char>>,
) -> Option<(ProtocolVersion, Set<Seq<char>>)> {
    if client_version.major != daemon_version.major {
        None
    } else {
        Some(
            (
                ProtocolVersion {
                    major: daemon_version.major,
                    minor: min_minor(client_version.minor, daemon_version.minor),
                },
                client_capabilities.intersect(daemon_capabilities),
            ),
        )
    }
}

/// The text that explains why two versions cannot interoperate.
pub open spec fn incompatibility_message(
    client_version: ProtocolVersion,
    daemon_version: ProtocolVersion,
) -> Seq<char> {
    "client protocol "@ + decimal(client_version.major as nat) + "."@ + decimal(
        client_version.minor as nat,
    ) + " is incompatible with daemon protocol "@ + decimal(daemon_version.major as nat) + "."@
        + decimal(daemon_version.minor as nat)
}

/// The error owed when negotiation fails.
pub open spec fn is_incompatibility_error(
    e: IpcError,
    client_version: ProtocolVersion,
    daemon_version: ProtocolVersion,
) -> bool {
    &&& e.code == ErrorCode::IncompatibleVersion
    &&& e.message@ == incompatibility_message(client_version, daemon_version)
    &&& !e.retryable
}

/// Negotiates one major-compatible protocol and the capability intersection.
pub fn negotiate(
    client_version: ProtocolVersion,
    client_capabilities: &CapabilitySet,
    daemon_version: ProtocolVersion,
    daemon_capabilities: &CapabilitySet,
) -> (res: Result<NegotiatedProtocol, IpcError>)
    ensures
        match res {
            Ok(n) => spec_negotiate(
                client_version,
                client_capabilities@,
                daemon_version,
                daemon_capabilities@,
            ) == Some((n.version, n.capabilities@)),
            Err(e) => {
                &&& spec_negotiate(
                    client_version,
                    client_capabilities@,
                    daemon_version,
                    daemon_capabilities@,
                ) is None
                &&& is_incompatibility_error(e, client_version, daemon_version)
            },
        },
{
    if client_version.major != daemon_version.major {
        let mut message = String::from_str("client protocol ");
        push_decimal(&mut message, client_version.major as u64);
        message.append(".");
        push_decimal(&mut message, client_version.minor as u64);
        message.append(" is incompatible with daemon protocol ");
        push_decimal(&mut message, daemon_version.major as u64);
        message.append(".");
        push_decimal(&mut message, daemon_version.minor as u64);
        return Err(IpcError::new(ErrorCode::IncompatibleVersion, message, false));
    }
    let capabilities = client_capabilities.intersection(daemon_capabilities);
    let minor = if client_version.minor <= daemon_version.minor {
        client_version.minor
    } else {
        daemon_version.minor
    };
    Ok(
        NegotiatedProtocol {
            version: ProtocolVersion::new(daemon_version.major, minor),
            capabilities,
        },
    )
}

/// Negotiation does not depend on which peer is the client: when both sides
/// swap roles, they agree on the same version and the same capabilities.
pub proof fn lemma_negotiation_symmetric(
    client_version: ProtocolVersion,
    client_capabilities: Set<Seq<char>>,
    daemon_version: ProtocolVersion,
    daemon_capabilities: Set<Seq<char>>,
)
    ensures
        spec_negotiate(client_version, client_capabilities, daemon_version, daemon_capabilities)
            == spec_negotiate(daemon_version, daemon_capabilities, client_version, client_capabilities),
{
    assert(client_capabilities.intersect(daemon_capabilities) =~= daemon_capabilities.intersect(
        client_capabilities,
    ));
}

/// What negotiation agrees on is offered by both peers: the agreed capabilities
/// are offered by each, the major number is each peer's, and the minor number
/// exceeds neither peer's.
pub proof fn lemma_negotiated_within_both(
    client_version: ProtocolVersion,
    client_capabilities: Set<Seq<char>>,
    daemon_version: ProtocolVersion,
    daemon_capabilities: Set<Seq<char>>,
)
    requires
        spec_negotiate(client_version, client_capabilities, daemon_version, daemon_capabilities)
            is Some,
    ensures
        ({
            let (version, capabilities) = spec_negotiate(
                client_version,
                client_capabilities,
                daemon_version,
                daemon_capabilities,
            )->0;
            &&& capabilities.subset_of(client_capabilities)
            &&& capabilities.subset_of(daemon_capabilities)
            &&& version.major == client_version.major
            &&& version.major == daemon_version.major
            &&& version.minor <= client_version.minor
            &&& version.minor <= daemon_version.minor
            &&& (version.minor == client_version.minor || version.minor == daemon_version.minor)
            &&& forall|name: Seq<char>|
                client_capabilities.contains(name) && daemon_capabilities.contains(name)
                    ==> #[trigger] capabilities.contains(name)
        }),
{
}

/// Negotiation agrees exactly when both major numbers are the same; the
/// agreed minor number is then the smaller of the two peers' minor numbers,
/// and the agreed capabilities are those that both peers offer.
pub proof fn lemma_negotiation_outcome(
    client_version: ProtocolVersion,
    client_capabilities: Set<Seq<char>>,
    daemon_version: ProtocolVersion,
    daemon_capabilities: Set<Seq<char>>,
)
    ensures
        spec_negotiate(client_version, client_capabilities, daemon_version, daemon_capabilities)
            is Some <==> client_version.major == daemon_version.major,
        spec_negotiate(client_version, client_capabilities, daemon_version, daemon_capabilities)
            matches Some((version, capabilities)) ==> {
            &&& version.major == daemon_version.major
            &&& client_version.minor <= daemon_version.minor ==> version.minor
                == client_version.minor
            &&& daemon_version.minor <= client_version.minor ==> version.minor
                == daemon_version.minor
            &&& forall|name: Seq<char>| #[trigger]
                capabilities.contains(name) <==> client_capabilities.contains(name)
                    && daemon_capabilities.contains(name)
        },
{
}

/// Negotiating again from an agreed outcome, against the same daemon, agrees
/// on that outcome unchanged.
pub proof fn lemma_renegotiation_stable(
    client_version: ProtocolVersion,
    client_capabilities: Set<Seq<char>>,
    daemon_version: ProtocolVersion,
    daemon_capabilities: Set<Seq<char>>,
)
    requires
        spec_negotiate(client_version, client_capabilities, daemon_version, daemon_capabilities)
            is Some,
    ensures
        ({
            let (version, capabilities) = spec_negotiate(
                client_version,
                client_capabilities,
                daemon_version,
                daemon_capabilities,
            )->0;
            spec_negotiate(version, capabilities, daemon_version, daemon_capabilities) == Some(
                (version, capabilities),
            )
        }),
{
    let capabilities = client_capabilities.intersect(daemon_capabilities);
    assert(capabilities.intersect(daemon_capabilities) =~= capabilities);
}

} // verus!
