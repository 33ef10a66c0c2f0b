//! What holds of curtailment at the grid connection point.

use super::mgcp::{
    curtailment_in, describes_factor, peak, share, share_of, value_of_key, CurtailmentView,
    CURTAILMENT_KEY,
};
use crate::model::{
    DeviceConfigurationKeyId, DeviceConfigurationKeyName,
    DeviceConfigurationKeyValueData, DeviceConfigurationKeyValueDescriptionData, Payload,
    ScaledNumber,
};
use crate::number::Number;
use crate::seqs::{lemma_first_index_is, lemma_no_first_index};
use vstd::prelude::*;

verus! {

/// A share lies between nothing and the whole, and is not changed if it did already; a peak power
/// is not below zero.
pub proof fn law_shares_and_peaks_lie_in_range(value: i64)
    ensures
        share(Number::Finite(value)) == Number::Finite(
            if value < 0 {
                0
            } else if value > 100_000 {
                100_000
            } else {
                value
            },
        ),
        peak(Number::Finite(value)) == Number::Finite(
            if value < 0 {
                0
            } else {
                value
            },
        ),
        peak(Number::NotANumber) == Number::Finite(0),
        peak(Number::NegativeInfinity) == Number::Finite(0),
        peak(Number::PositiveInfinity) is PositiveInfinity,
{
}

/// The ceiling is the share of the peak, rounded to the nearest thousandth of a watt.
pub proof fn law_the_ceiling_is_the_rounded_product(percent: i64, watts: i64)
    requires
        0 <= percent <= 100_000,
        0 <= watts,
    ensures
        share_of(Number::Finite(percent), Number::Finite(watts)) matches Number::Finite(ceiling)
            && 2 * (100_000 * ceiling - percent * watts) <= 100_000 && 2 * (percent * watts
            - 100_000 * ceiling) <= 100_000,
{
    let product = percent * watts;
    assert(0 <= product <= 100_000 * watts) by (nonlinear_arith)
        requires
            product == percent * watts,
            0 <= percent <= 100_000,
            0 <= watts,
    ;
    assert(2 * percent * watts == 2 * product) by (nonlinear_arith)
        requires
            product == percent * watts,
    ;
}

/// The factor is found by the name of its key, whatever was known before; where no key is named so,
/// the one that was known stays. The values that arrived before still count.
pub proof fn law_the_factor_is_found_by_name(
    known: CurtailmentView,
    entries: Seq<DeviceConfigurationKeyValueDescriptionData>,
    at: int,
    key: DeviceConfigurationKeyId,
)
    ensures
        ({
            let after = known.described(
                Payload::DeviceConfigurationKeyValueDescriptionListData(Some(entries)),
            );
            &&& after.numbers == known.numbers
            &&& 0 <= at < entries.len() && entries[at].key_id == Some(key) && names_factor(
                entries[at],
            ) && (forall|i: int| 0 <= i < at ==> !names_factor(#[trigger] entries[i]))
                ==> after.key == Some(key)
            &&& (forall|i: int|
                0 <= i < entries.len() ==> !names_factor(#[trigger] entries[i])) ==> after == known
        }),
{
    if 0 <= at < entries.len() && names_factor(entries[at]) && (forall|i: int|
        0 <= i < at ==> !names_factor(#[trigger] entries[i])) {
        lemma_first_index_is(entries, describes_factor(), at);
    }
    if forall|i: int| 0 <= i < entries.len() ==> !names_factor(#[trigger] entries[i]) {
        lemma_no_first_index(entries, describes_factor());
    }
}

/// Whether an entry describes the key of the factor.
pub open spec fn names_factor(entry: DeviceConfigurationKeyValueDescriptionData) -> bool {
    entry.key_id is Some && entry.key_name == Some(
        DeviceConfigurationKeyName::PvCurtailmentLimitFactor,
    )
}

/// The own factor is read from the first entry under its key.
pub proof fn law_the_own_factor_is_read_under_its_key(
    entries: Seq<DeviceConfigurationKeyValueData>,
    at: int,
    thousandths: i64,
)
    requires
        0 <= at < entries.len(),
        entries[at].key_id == Some(DeviceConfigurationKeyId(CURTAILMENT_KEY)),
        entries[at].value matches Some(value) && value.scaled_number == Some(
            ScaledNumber::Value(thousandths),
        ),
        forall|i: int|
            0 <= i < at ==> (#[trigger] entries[i]).key_id != Some(
                DeviceConfigurationKeyId(CURTAILMENT_KEY),
            ),
    ensures
        curtailment_in(Payload::DeviceConfigurationKeyValueListData(Some(entries))) == Some(
            Number::Finite(thousandths),
        ),
{
    lemma_first_index_is(
        entries,
        value_of_key(DeviceConfigurationKeyId(CURTAILMENT_KEY)),
        at,
    );
}

} // verus!
