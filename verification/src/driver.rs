//! The one driver query the bootstrap makes before instance creation: asking
//! the loader which validation layers it offers. The answer depends on the
//! machine, so nothing is assumed of its value; every decision taken on it is
//! verified for all possible answers.

use vstd::prelude::*;

use crate::bootstrap::LayerProbe;

verus! {

#[verifier::external_type_specification]
#[verifier::external_body]
pub struct ExEntry(ash::Entry);

#[verifier::external_type_specification]
#[verifier::external_body]
pub struct ExLayerProperties(ash::vk::LayerProperties);

#[verifier::external_type_specification]
#[verifier::external_body]
pub struct ExVkResult(ash::vk::Result);

/// Relies on ash::Entry::enumerate_instance_layer_properties: asks the
/// loader for the layers available on this machine. The answer is
/// machine-dependent, so no ensures is stated.
#[verifier::external_body]
fn enumerate_instance_layer_properties(entry: &ash::Entry) -> Result<
    Vec<ash::vk::LayerProperties>,
    ash::vk::Result,
> {
    entry.enumerate_instance_layer_properties()
}

/// Relies on the layout of ash::vk::LayerProperties: `layer_name` holds the
/// layer's name as a nul-terminated byte buffer. The value depends on the
/// record alone but is opaque here, so no ensures is stated.
#[verifier::external_body]
fn layer_name_of(properties: &ash::vk::LayerProperties) -> String {
    let bytes: Vec<u8> = properties.layer_name.iter().take_while(|&&c| c != 0).map(
        |&c| c as u8,
    ).collect();
    String::from_utf8_lossy(&bytes).into_owned()
}

/// Asks the driver which layers it offers and reports the outcome as a
/// layer probe: `Failed` when the driver refused the query, otherwise the
/// list of available layer names.
pub fn probe_validation_layers(entry: &ash::Entry) -> (r: LayerProbe)
    ensures
        !(r is NotRequested),
{
    match enumerate_instance_layer_properties(entry) {
        Err(_) => LayerProbe::Failed,
        Ok(properties) => {
            let mut names: Vec<String> = Vec::new();
            let mut i: usize = 0;
            while i < properties.len()
                decreases properties.len() - i,
            {
                names.push(layer_name_of(&properties[i]));
                i += 1;
            }
            LayerProbe::Available(names)
        },
    }
}

} // verus!
