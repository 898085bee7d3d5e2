//! Declarations of the codec crate's types that appear in trusted
//! signatures. The engine carries these values through opaquely; everything
//! it reads out of them goes through the wrappers in `codec`.

use vstd::prelude::*;

verus! {

#[verifier::external_type_specification]
#[verifier::external_body]
pub struct ExWireMessage(mqtt_sn::defs::Message);

#[verifier::external_type_specification]
#[verifier::external_body]
pub struct ExWireReturnCode(mqtt_sn::defs::ReturnCode);

#[verifier::external_type_specification]
#[verifier::external_body]
pub struct ExWirePublish(mqtt_sn::defs::Publish);

} // verus!
