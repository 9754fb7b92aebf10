//! Who this node is, as told to the services it talks to.

use crate::config::inputs::IdentityInput;
use crate::decimal::{decimal_u16, parse_u16};
use crate::trusted::{parse_uuid, uuid_parse};
use vstd::prelude::*;
use vstd::string::*;

verus! {

/// Default group for reboot management.
pub open spec fn default_group() -> Seq<char> {
    "default"@
}

/// Architecture that is reported.
pub open spec fn reported_arch() -> Seq<char> {
    "amd64"@
}

/// Update stream that is followed.
pub open spec fn reported_stream() -> Seq<char> {
    "stable"@
}

/// Platform that is reported.
pub open spec fn reported_platform() -> Seq<char> {
    "metal-bios"@
}

/// Version of the running operating system.
pub open spec fn os_release() -> Seq<char> {
    "FCOS-01"@
}

/// The highest throttle level, which stands for no throttling at all.
pub const MAX_THROTTLE_PERMILLE: u16 = 1000;

/// The node id that stands for a node without one of its own: sixteen zero
/// bytes.
pub open spec fn nil_node_uuid() -> Seq<u8> {
    Seq::new(16, |i: int| 0u8)
}

/// The node's self-description, sent along with every request.
#[derive(Debug, PartialEq, Eq)]
pub struct Identity {
    pub arch: String,
    pub current_version: String,
    pub group: String,
    pub node_uuid: [u8; 16],
    pub platform: String,
    pub stream: String,
    /// Throttle level, 0 (never) to 1000 (unlimited).
    pub throttle_permille: Option<u16>,
}

/// What an [`Identity`] says.
pub struct IdentityView {
    pub arch: Seq<char>,
    pub current_version: Seq<char>,
    pub group: Seq<char>,
    pub node_uuid: Seq<u8>,
    pub platform: Seq<char>,
    pub stream: Seq<char>,
    pub throttle_permille: Option<u16>,
}

impl IdentityView {
    /// The throttle level, where there is one, is a number of thousandths.
    pub open spec fn well_formed(self) -> bool {
        match self.throttle_permille {
            Some(level) => level <= MAX_THROTTLE_PERMILLE,
            None => true,
        }
    }
}

impl View for Identity {
    type V = IdentityView;

    open spec fn view(&self) -> IdentityView {
        IdentityView {
            arch: self.arch@,
            current_version: self.current_version@,
            group: self.group@,
            node_uuid: self.node_uuid@,
            platform: self.platform@,
            stream: self.stream@,
            throttle_permille: self.throttle_permille,
        }
    }
}

impl Clone for Identity {
    fn clone(&self) -> (r: Self)
        ensures
            r == *self,
    {
        Identity {
            arch: self.arch.clone(),
            current_version: self.current_version.clone(),
            group: self.group.clone(),
            node_uuid: self.node_uuid,
            platform: self.platform.clone(),
            stream: self.stream.clone(),
            throttle_permille: self.throttle_permille,
        }
    }
}

/// Why no identity could be built from the configuration.
#[derive(Clone, Copy, Debug, PartialEq, Eq, Structural)]
pub enum IdentityError {
    /// The configured node id is no UUID.
    InvalidNodeUuid,
    /// The configured throttle bucket is no number from 0 to 1000.
    InvalidThrottle,
}

/// The node id that a configuration stands for, given what its text reads
/// as: the nil id where none is configured.
pub open spec fn node_uuid_of(configured: Seq<char>, read: Option<Seq<u8>>) -> Option<Seq<u8>> {
    if configured.len() == 0 {
        Some(nil_node_uuid())
    } else {
        read
    }
}

/// The throttle bucket that a configuration stands for: none where none is
/// configured, an error where the text is no number from 0 to 1000.
pub open spec fn throttle_of(configured: Seq<char>) -> Result<Option<u16>, IdentityError> {
    if configured.len() == 0 {
        Ok(None)
    } else {
        match decimal_u16(configured) {
            Some(level) => if level <= MAX_THROTTLE_PERMILLE {
                Ok(Some(level))
            } else {
                Err(IdentityError::InvalidThrottle)
            },
            None => Err(IdentityError::InvalidThrottle),
        }
    }
}

/// The identity that a configuration stands for, given the node id it
/// names. A bad node id is reported before a bad throttle bucket.
pub open spec fn identity_of(
    group: Seq<char>,
    node_uuid: Option<Seq<u8>>,
    throttle_permille: Seq<char>,
) -> Result<IdentityView, IdentityError> {
    match node_uuid {
        None => Err(IdentityError::InvalidNodeUuid),
        Some(id) => match throttle_of(throttle_permille) {
            Err(e) => Err(e),
            Ok(level) => Ok(
                IdentityView {
                    arch: reported_arch(),
                    current_version: os_release(),
                    group: if group.len() == 0 {
                        default_group()
                    } else {
                        group
                    },
                    node_uuid: id,
                    platform: reported_platform(),
                    stream: reported_stream(),
                    throttle_permille: level,
                },
            ),
        },
    }
}

/// An identity that is built from a configuration has a throttle level
/// within bounds, if it has one.
pub proof fn lemma_identity_of_is_well_formed(
    group: Seq<char>,
    node_uuid: Option<Seq<u8>>,
    throttle_permille: Seq<char>,
)
    ensures
        identity_of(group, node_uuid, throttle_permille) matches Ok(identity)
            ==> identity.well_formed(),
{
}

/// What the outcome of building an identity says.
pub open spec fn identity_result_view(r: Result<Identity, IdentityError>) -> Result<
    IdentityView,
    IdentityError,
> {
    match r {
        Ok(identity) => Ok(identity@),
        Err(e) => Err(e),
    }
}

impl Identity {
    /// Builds the identity from configuration inputs.
    ///
    /// An empty group stands for the default group, an empty node id for
    /// the nil id, an empty throttle bucket for none.
    pub fn try_from_config(cfg: IdentityInput) -> (r: Result<Identity, IdentityError>)
        ensures
            identity_result_view(r) == identity_of(
                cfg.group@,
                node_uuid_of(cfg.node_uuid@, uuid_parse(cfg.node_uuid@)),
                cfg.throttle_permille@,
            ),
    {
        let node_uuid = if cfg.node_uuid.as_str().is_empty() {
            Some(compute_node_uuid())
        } else {
            match parse_uuid(cfg.node_uuid.as_str()) {
                Ok(id) => Some(id),
                Err(_) => None,
            }
        };
        Identity::with_node_uuid(cfg.group, node_uuid, cfg.throttle_permille)
    }

    /// Builds the identity from the configured group and throttle bucket
    /// and from the node id that the configuration names, `None` standing
    /// for one that could not be read.
    pub fn with_node_uuid(
        group: String,
        node_uuid: Option<[u8; 16]>,
        throttle_permille: String,
    ) -> (r: Result<Identity, IdentityError>)
        ensures
            identity_result_view(r) == identity_of(
                group@,
                match node_uuid {
                    Some(id) => Some(id@),
                    None => None,
                },
                throttle_permille@,
            ),
    {
        let group = if group.as_str().is_empty() {
            String::from_str("default")
        } else {
            group
        };
        let node_uuid = match node_uuid {
            Some(id) => id,
            None => {
                return Err(IdentityError::InvalidNodeUuid);
            },
        };
        let arch = String::from_str("amd64");
        let stream = String::from_str("stable");
        let platform = String::from_str("metal-bios");
        let throttle_permille = if throttle_permille.as_str().is_empty() {
            None
        } else {
            match parse_u16(throttle_permille.as_str()) {
                Some(level) => {
                    if level > MAX_THROTTLE_PERMILLE {
                        return Err(IdentityError::InvalidThrottle);
                    }
                    Some(level)
                },
                None => {
                    return Err(IdentityError::InvalidThrottle);
                },
            }
        };
        let current_version = read_os_release();
        Ok(Identity { arch, stream, platform, current_version, group, node_uuid, throttle_permille })
    }
}

/// The version of the running operating system.
pub fn read_os_release() -> (version: String)
    ensures
        version@ == os_release(),
{
    String::from_str("FCOS-01")
}

/// The id of a node that has none configured: the nil id.
pub fn compute_node_uuid() -> (id: [u8; 16])
    ensures
        id@ == nil_node_uuid(),
{
    let id = [0u8; 16];
    assert(id@ =~= nil_node_uuid());
    id
}

} // verus!
