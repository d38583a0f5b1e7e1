use vstd::prelude::*;
use crate::error::VerityError;
use crate::state::{Config, MAX_FEE_BPS};

verus! {

/// Create the marketplace's singleton configuration. The caller becomes its
/// authority (and thereby the trusted attestor for force-cancels). Rejects
/// a fee rate above the 10% cap.
pub fn handler(authority: u64, fee_bps: u16, fee_recipient: u64) -> (r: Result<
    Config,
    VerityError,
>)
    ensures
        r is Ok <==> fee_bps <= MAX_FEE_BPS,
        r is Err ==> r->Err_0 == VerityError::InvalidPrice,
        r matches Ok(config) ==> config == (Config { authority, fee_bps, fee_recipient }),
        r matches Ok(config) ==> config.wf(),
{
    if fee_bps > MAX_FEE_BPS {
        return Err(VerityError::InvalidPrice);
    }
    Ok(Config { authority, fee_bps, fee_recipient })
}

} // verus!
