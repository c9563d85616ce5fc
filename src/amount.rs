use vstd::prelude::*;

verus! {

/// Number of scaled units in one whole unit of currency (four decimal digits).
pub const SCALE: i64 = 10000;

/// True when `v` is representable as the scaled integer of an `Amount`.
pub open spec fn in_amount_range(v: int) -> bool {
    i64::MIN <= v <= i64::MAX
}

/// A signed fixed-point quantity with exactly four decimal digits, held as
/// the value multiplied by ten thousand. Its view is that scaled integer.
#[derive(Debug, Clone, Copy, PartialEq, Eq, Structural, PartialOrd, Ord)]
pub struct Amount(i64);

impl View for Amount {
    type V = int;

    closed spec fn view(&self) -> int {
        self.0 as int
    }
}

/// The amount whose scaled integer is `v`, when `v` is in range.
pub closed spec fn of_scaled(v: int) -> Amount {
    Amount(v as i64)
}

/// `of_scaled` keeps every value of the representable range.
pub broadcast proof fn lemma_of_scaled_view(v: int)
    requires
        in_amount_range(v),
    ensures
        #[trigger] of_scaled(v)@ == v,
{
}

/// Every amount's scaled integer is in range.
pub broadcast proof fn lemma_view_in_range(a: Amount)
    ensures
        in_amount_range(#[trigger] a@),
{
}

impl Amount {
    /// The amount of `whole_units` whole units.
    pub fn new(whole_units: u64) -> (r: Amount)
        requires
            whole_units * SCALE <= i64::MAX,
        ensures
            r@ == whole_units * SCALE,
    {
        Amount((whole_units * 10000) as i64)
    }

    /// The amount whose scaled integer is `scaled` (ten thousandths of a unit).
    pub fn from_scaled(scaled: i64) -> (r: Amount)
        ensures
            r@ == scaled,
    {
        Amount(scaled)
    }

    /// The scaled integer of this amount (ten thousandths of a unit).
    pub fn scaled(&self) -> (r: i64)
        ensures
            r == self@,
    {
        self.0
    }

    /// Zero.
    pub fn zero() -> (r: Amount)
        ensures
            r@ == 0,
    {
        Amount(0)
    }

    /// Whether this amount is greater than or equal to `other`.
    pub fn at_least(&self, other: &Amount) -> (r: bool)
        ensures
            r == (self@ >= other@),
    {
        self.0 >= other.0
    }

    /// The sum, or `None` when it leaves the representable range.
    pub fn checked_add(&self, other: &Amount) -> (r: Option<Amount>)
        ensures
            r is Some <==> in_amount_range(self@ + other@),
            r matches Some(s) ==> s@ == self@ + other@,
    {
        match self.0.checked_add(other.0) {
            Some(s) => Some(Amount(s)),
            None => None,
        }
    }

    /// The difference, or `None` when it leaves the representable range.
    pub fn checked_sub(&self, other: &Amount) -> (r: Option<Amount>)
        ensures
            r is Some <==> in_amount_range(self@ - other@),
            r matches Some(s) ==> s@ == self@ - other@,
    {
        match self.0.checked_sub(other.0) {
            Some(s) => Some(Amount(s)),
            None => None,
        }
    }
}

impl From<u32> for Amount {
    /// The amount of `value` whole units.
    fn from(value: u32) -> (r: Amount) {
        Amount(value as i64 * 10000)
    }
}

impl vstd::std_specs::convert::FromSpecImpl<u32> for Amount {
    open spec fn obeys_from_spec() -> bool {
        true
    }

    open spec fn from_spec(v: u32) -> Amount {
        of_scaled(v * SCALE)
    }
}

impl core::ops::Add for Amount {
    type Output = Amount;

    fn add(self, other: Amount) -> (r: Amount) {
        Amount(self.0 + other.0)
    }
}

impl vstd::std_specs::ops::AddSpecImpl for Amount {
    open spec fn obeys_add_spec() -> bool {
        true
    }

    open spec fn add_req(self, rhs: Amount) -> bool {
        in_amount_range(self@ + rhs@)
    }

    open spec fn add_spec(self, rhs: Amount) -> Amount {
        of_scaled(self@ + rhs@)
    }
}

impl core::ops::Sub for Amount {
    type Output = Amount;

    fn sub(self, other: Amount) -> (r: Amount) {
        Amount(self.0 - other.0)
    }
}

impl vstd::std_specs::ops::SubSpecImpl for Amount {
    open spec fn obeys_sub_spec() -> bool {
        true
    }

    open spec fn sub_req(self, rhs: Amount) -> bool {
        in_amount_range(self@ - rhs@)
    }

    open spec fn sub_spec(self, rhs: Amount) -> Amount {
        of_scaled(self@ - rhs@)
    }
}

impl core::ops::Neg for Amount {
    type Output = Amount;

    fn neg(self) -> (r: Amount) {
        Amount(-self.0)
    }
}

impl vstd::std_specs::ops::NegSpecImpl for Amount {
    open spec fn obeys_neg_spec() -> bool {
        true
    }

    open spec fn neg_req(self) -> bool {
        in_amount_range(-self@)
    }

    open spec fn neg_spec(self) -> Amount {
        of_scaled(-self@)
    }
}

} // verus!
