//! The contract addresses a run works against, resolved from deployment
//! metadata.
use vstd::prelude::*;
use crate::error::{ConfigField, RegistrationError};
use crate::hex::{decode_hex_array, hex_text_bytes};

verus! {

/// A 20-byte chain address.
#[derive(Clone, Copy, Debug)]
pub struct ChainAddress {
    pub bytes: [u8; 20],
}

/// Address fields of the core-protocol deployment manifest, as text; `None`
/// where the manifest lacks the field.
#[derive(Clone, Debug)]
pub struct CoreDeployment {
    pub delegation: Option<String>,
    pub avs_directory: Option<String>,
}

/// Address fields of the service-middleware deployment manifest, as text.
#[derive(Clone, Debug)]
pub struct MiddlewareDeployment {
    pub service_manager: Option<String>,
    pub stake_registry: Option<String>,
}

/// The four contracts of one network, read-only once resolved.
#[derive(Clone, Copy, Debug)]
pub struct NetworkTopology {
    pub delegation: ChainAddress,
    pub avs_directory: ChainAddress,
    pub service_manager: ChainAddress,
    pub stake_registry: ChainAddress,
}

/// The address a manifest field stands for, if it is present and valid.
pub open spec fn field_address(field: Option<String>) -> Option<Seq<u8>> {
    match field {
        Some(text) => hex_text_bytes(text@, 20),
        None => None,
    }
}

/// The first field, in manifest order, that holds no valid address.
pub open spec fn first_bad_field(core: CoreDeployment, middleware: MiddlewareDeployment) -> Option<
    ConfigField,
> {
    if field_address(core.delegation) is None {
        Some(ConfigField::Delegation)
    } else if field_address(core.avs_directory) is None {
        Some(ConfigField::AvsDirectory)
    } else if field_address(middleware.service_manager) is None {
        Some(ConfigField::ServiceManager)
    } else if field_address(middleware.stake_registry) is None {
        Some(ConfigField::StakeRegistry)
    } else {
        None
    }
}

/// Whether `topology` holds exactly the addresses written in the manifests.
pub open spec fn matches_manifests(
    topology: NetworkTopology,
    core: CoreDeployment,
    middleware: MiddlewareDeployment,
) -> bool {
    &&& field_address(core.delegation) == Some(topology.delegation.bytes@)
    &&& field_address(core.avs_directory) == Some(topology.avs_directory.bytes@)
    &&& field_address(middleware.service_manager) == Some(topology.service_manager.bytes@)
    &&& field_address(middleware.stake_registry) == Some(topology.stake_registry.bytes@)
}

/// Parses one manifest field, reporting `which` when it is absent or is not
/// a chain address.
pub fn parse_address_field(field: &Option<String>, which: ConfigField) -> (r: Result<
    ChainAddress,
    RegistrationError,
>)
    ensures
        r matches Ok(a) ==> field_address(*field) == Some(a.bytes@),
        r matches Err(e) ==> field_address(*field) is None && e == RegistrationError::Config(which),
{
    match field {
        Some(text) => match decode_hex_array::<20>(text.as_str()) {
            Some(bytes) => Ok(ChainAddress { bytes }),
            None => Err(RegistrationError::Config(which)),
        },
        None => Err(RegistrationError::Config(which)),
    }
}

/// Resolves the network's contracts from the two manifests. Succeeds exactly
/// when all four fields hold valid addresses, and then returns those
/// addresses; otherwise reports the first field that does not.
pub fn resolve_topology(core: &CoreDeployment, middleware: &MiddlewareDeployment) -> (r: Result<
    NetworkTopology,
    RegistrationError,
>)
    ensures
        r matches Ok(t) ==> first_bad_field(*core, *middleware) is None && matches_manifests(
            t,
            *core,
            *middleware,
        ),
        r matches Err(e) ==> first_bad_field(*core, *middleware) matches Some(f) && e
            == RegistrationError::Config(f),
{
    let delegation = parse_address_field(&core.delegation, ConfigField::Delegation)?;
    let avs_directory = parse_address_field(&core.avs_directory, ConfigField::AvsDirectory)?;
    let service_manager = parse_address_field(
        &middleware.service_manager,
        ConfigField::ServiceManager,
    )?;
    let stake_registry = parse_address_field(
        &middleware.stake_registry,
        ConfigField::StakeRegistry,
    )?;
    Ok(NetworkTopology { delegation, avs_directory, service_manager, stake_registry })
}

/// Manifests whose four address fields all hold valid addresses have no bad
/// field, so `resolve_topology` succeeds on them (and by its contract returns
/// exactly those addresses).
pub proof fn lemma_valid_manifests_resolve(core: CoreDeployment, middleware: MiddlewareDeployment)
    requires
        field_address(core.delegation) is Some,
        field_address(core.avs_directory) is Some,
        field_address(middleware.service_manager) is Some,
        field_address(middleware.stake_registry) is Some,
    ensures
        first_bad_field(core, middleware) is None,
{
}

/// Manifests that lack any of the four address fields never resolve: the
/// run fails with a configuration error naming a bad field.
pub proof fn lemma_missing_field_rejected(core: CoreDeployment, middleware: MiddlewareDeployment)
    requires
        core.delegation is None || core.avs_directory is None || middleware.service_manager is None
            || middleware.stake_registry is None,
    ensures
        first_bad_field(core, middleware) is Some,
{
}

} // verus!
