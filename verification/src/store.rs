//! Thread-safe storage for the plugin's parameters.
//!
//! The single gain parameter lives in a `vst::util::ParameterTransfer`, the
//! lock-free container that the plugin shares between the audio path and the
//! control surface.  Verified code never touches the stored values as
//! floating-point numbers: a value is carried as the `u32` bit pattern of
//! the stored 32-bit float, and the few operations that need the numeric
//! reading (parsing decimal text, rendering to three decimals) are trusted
//! wrappers over the container and the standard library.

use vstd::prelude::*;
use vstd::string::StringExecFns;

verus! {

#[verifier::external_type_specification]
#[verifier::external_body]
pub struct ExParameterTransfer(vst::util::ParameterTransfer);

/// The bit patterns of the values held by a `ParameterTransfer`, one per
/// parameter slot.
pub uninterp spec fn transfer_bits(t: vst::util::ParameterTransfer) -> Seq<u32>;

/// The bit pattern of the 32-bit float that `str::parse` yields on this
/// text, or `None` where the parse fails.  The parse result depends on the
/// characters alone.
pub uninterp spec fn parsed_bits(text: Seq<char>) -> Option<u32>;

/// The text that formatting the 32-bit float with this bit pattern to three
/// decimal places yields.  The rendering depends on the bit pattern alone.
pub uninterp spec fn formatted_3(bits: u32) -> Seq<char>;

/// Relies on `vst::util::ParameterTransfer::new`: the container starts with
/// `count` slots, each holding 0.0, whose bit pattern is zero.
#[verifier::external_body]
fn transfer_new(count: usize) -> (t: vst::util::ParameterTransfer)
    ensures
        transfer_bits(t).len() == count,
        forall|i: int| 0 <= i < count ==> transfer_bits(t)[i] == 0u32,
{
    vst::util::ParameterTransfer::new(count)
}

/// Relies on `vst::util::ParameterTransfer::get_parameter`, which reloads the
/// stored bits; converting to bits undoes its bit-for-bit conversion to a
/// float.  Reading out of range would panic, so the index is required valid.
#[verifier::external_body]
fn transfer_get_bits(t: &vst::util::ParameterTransfer, index: usize) -> (bits: u32)
    requires
        index < transfer_bits(*t).len(),
    ensures
        bits == transfer_bits(*t)[index as int],
{
    t.get_parameter(index).to_bits()
}

/// Relies on `str::parse` for 32-bit floats and on
/// `vst::util::ParameterTransfer::set_parameter`, which stores the parsed
/// value's bits.  A text that does not parse leaves the container unchanged.
/// Writing out of range would panic, so the index is required valid.
#[verifier::external_body]
fn transfer_set_from_text(
    t: &mut vst::util::ParameterTransfer,
    index: usize,
    text: &str,
) -> (ok: bool)
    requires
        index < transfer_bits(*old(t)).len(),
    ensures
        match parsed_bits(text@) {
            Some(bits) => ok && transfer_bits(*final(t)) == transfer_bits(*old(t)).update(
                index as int,
                bits,
            ),
            None => !ok && transfer_bits(*final(t)) == transfer_bits(*old(t)),
        },
{
    match text.parse() {
        Ok(value) => {
            t.set_parameter(index, value);
            true
        },
        Err(_) => false,
    }
}

/// Relies on `vst::util::ParameterTransfer::get_parameter` and the standard
/// formatting of a 32-bit float to three decimal places.  Reading out of
/// range would panic, so the index is required valid.
#[verifier::external_body]
fn transfer_format_3(t: &vst::util::ParameterTransfer, index: usize) -> (text: String)
    requires
        index < transfer_bits(*t).len(),
    ensures
        text@ == formatted_3(transfer_bits(*t)[index as int]),
{
    format!("{:.3}", t.get_parameter(index))
}

/// The store owns one slot per parameter; this plugin has exactly one, the
/// gain, at index zero.
pub struct ParameterStore {
    transfer: vst::util::ParameterTransfer,
}

impl ParameterStore {
    /// The bit patterns of the stored parameter values.
    pub closed spec fn view(&self) -> Seq<u32> {
        transfer_bits(self.transfer)
    }

    /// A well-formed store holds exactly the one gain slot.
    pub open spec fn wf(&self) -> bool {
        self@.len() == 1
    }

    /// A fresh store holds the one gain parameter, initially zero bits (0.0).
    pub fn new() -> (s: Self)
        ensures
            s.wf(),
            s@[0] == 0u32,
    {
        ParameterStore { transfer: transfer_new(1) }
    }

    /// The bit pattern of the parameter at `index`; an out-of-range index
    /// reads as zero bits rather than failing, since hosts probe indices
    /// speculatively.
    pub fn get_parameter(&self, index: i32) -> (bits: u32)
        requires
            self.wf(),
        ensures
            bits == (if index == 0 {
                self@[0]
            } else {
                0u32
            }),
    {
        if index == 0 {
            transfer_get_bits(&self.transfer, 0)
        } else {
            0u32
        }
    }

    /// Parses `text` as a decimal gain and stores it at `index`.  A text that
    /// does not parse, or an out-of-range index, leaves the store unchanged
    /// and reports failure.
    pub fn set_from_text(&mut self, index: i32, text: &str) -> (ok: bool)
        requires
            old(self).wf(),
        ensures
            final(self).wf(),
            index != 0 ==> !ok && final(self)@ == old(self)@,
            index == 0 ==> match parsed_bits(text@) {
                Some(bits) => ok && final(self)@ == old(self)@.update(0, bits),
                None => !ok && final(self)@ == old(self)@,
            },
    {
        if index == 0 {
            transfer_set_from_text(&mut self.transfer, 0, text)
        } else {
            false
        }
    }

    /// The unit label of the parameter at `index`: the gain is dimensionless.
    pub fn get_parameter_label(&self, index: i32) -> (label: String)
        ensures
            index == 0 ==> label@ == "[-]"@,
            index != 0 ==> label@ == Seq::<char>::empty(),
    {
        if index == 0 {
            String::from_str("[-]")
        } else {
            String::new()
        }
    }

    /// The display name of the parameter at `index`.
    pub fn get_parameter_name(&self, index: i32) -> (name: String)
        ensures
            index == 0 ==> name@ == "gain"@,
            index != 0 ==> name@ == Seq::<char>::empty(),
    {
        if index == 0 {
            String::from_str("gain")
        } else {
            String::new()
        }
    }

    /// The current value of the parameter at `index`, rendered to three
    /// decimal places; empty for an out-of-range index.
    pub fn get_parameter_text(&self, index: i32) -> (text: String)
        requires
            self.wf(),
        ensures
            index == 0 ==> text@ == formatted_3(self@[0]),
            index != 0 ==> text@ == Seq::<char>::empty(),
    {
        if index == 0 {
            transfer_format_3(&self.transfer, 0)
        } else {
            String::new()
        }
    }

    /// Whether the host may automate the parameter at `index`: only the gain.
    pub fn can_be_automated(&self, index: i32) -> (r: bool)
        ensures
            r == (index == 0),
    {
        index == 0
    }
}

} // verus!
