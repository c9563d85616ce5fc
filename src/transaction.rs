use vstd::prelude::*;

use crate::amount::Amount;

verus! {

/// Identifies a deposit or withdrawal; dispute-family records refer back to it.
pub type TransactionId = u32;

/// Identifies a client account.
pub type ClientId = u16;

/// The five kinds of transaction record.
#[derive(Debug, Clone, Copy, PartialEq, Eq, Structural)]
pub enum TransactionType {
    Chargeback,
    Deposit,
    Dispute,
    Resolve,
    Withdrawal,
}

/// `b` with an ASCII capital letter turned into its small letter.
pub open spec fn ascii_lower(b: u8) -> u8 {
    if 65 <= b <= 90 {
        (b + 32) as u8
    } else {
        b
    }
}

/// Whether `text` spells `name` (in small letters) in any mix of letter case.
pub open spec fn spells_ignoring_case(text: Seq<u8>, name: Seq<u8>) -> bool {
    &&& text.len() == name.len()
    &&& forall|i: int| 0 <= i < text.len() ==> ascii_lower(#[trigger] text[i]) == name[i]
}

impl TransactionType {
    /// The name of each kind in input records, in small ASCII letters.
    pub open spec fn name(self) -> Seq<u8> {
        match self {
            TransactionType::Chargeback => seq![99u8, 104, 97, 114, 103, 101, 98, 97, 99, 107],
            TransactionType::Deposit => seq![100u8, 101, 112, 111, 115, 105, 116],
            TransactionType::Dispute => seq![100u8, 105, 115, 112, 117, 116, 101],
            TransactionType::Resolve => seq![114u8, 101, 115, 111, 108, 118, 101],
            TransactionType::Withdrawal => seq![119u8, 105, 116, 104, 100, 114, 97, 119, 97, 108],
        }
    }

    /// The name of this kind in input records, in small ASCII letters.
    pub fn name_bytes(&self) -> (r: Vec<u8>)
        ensures
            r@ == self.name(),
    {
        let r = match self {
            TransactionType::Chargeback => vec![99u8, 104, 97, 114, 103, 101, 98, 97, 99, 107],
            TransactionType::Deposit => vec![100u8, 101, 112, 111, 115, 105, 116],
            TransactionType::Dispute => vec![100u8, 105, 115, 112, 117, 116, 101],
            TransactionType::Resolve => vec![114u8, 101, 115, 111, 108, 118, 101],
            TransactionType::Withdrawal => vec![119u8, 105, 116, 104, 100, 114, 97, 119, 97, 108],
        };
        assert(r@ =~= self.name());
        r
    }

    /// The kind whose name `text` spells, ignoring ASCII letter case.
    pub fn from_name(text: &[u8]) -> (r: Option<TransactionType>)
        ensures
            r matches Some(ty) ==> spells_ignoring_case(text@, ty.name()),
            r is None ==> forall|ty: TransactionType| !spells_ignoring_case(text@, ty.name()),
    {
        let kinds = [
            TransactionType::Chargeback,
            TransactionType::Deposit,
            TransactionType::Dispute,
            TransactionType::Resolve,
            TransactionType::Withdrawal,
        ];
        let mut k: usize = 0;
        while k < 5
            invariant
                forall|j: int| 0 <= j < k ==> !spells_ignoring_case(text@, #[trigger] kinds@[j].name()),
            decreases 5 - k,
        {
            let name = kinds[k].name_bytes();
            if matches_ignoring_case(text, name.as_slice()) {
                return Some(kinds[k]);
            }
            k = k + 1;
        }
        None
    }
}

/// Whether `text` spells `name`, a word in small ASCII letters, in any case.
fn matches_ignoring_case(text: &[u8], name: &[u8]) -> (r: bool)
    ensures
        r == spells_ignoring_case(text@, name@),
{
    if text.len() != name.len() {
        return false;
    }
    let mut i: usize = 0;
    while i < text.len()
        invariant
            text@.len() == name@.len(),
            i <= text@.len(),
            forall|j: int| 0 <= j < i ==> ascii_lower(#[trigger] text@[j]) == name@[j],
        decreases text@.len() - i,
    {
        let b = text[i];
        let lower = if 65 <= b && b <= 90 { b + 32 } else { b };
        if lower != name[i] {
            return false;
        }
        i = i + 1;
    }
    true
}

/// The mathematical content of a transaction record; `amount` is the scaled
/// integer of its amount.
pub struct TransactionView {
    pub ty: TransactionType,
    pub client_id: ClientId,
    pub transaction_id: TransactionId,
    pub amount: int,
}

/// One decoded input record. It is never changed once built.
#[derive(Debug, Clone, Copy)]
pub struct Transaction {
    ty: TransactionType,
    client_id: ClientId,
    transaction_id: TransactionId,
    amount: Amount,
}

impl View for Transaction {
    type V = TransactionView;

    closed spec fn view(&self) -> TransactionView {
        TransactionView {
            ty: self.ty,
            client_id: self.client_id,
            transaction_id: self.transaction_id,
            amount: self.amount@,
        }
    }
}

impl Transaction {
    /// A record of kind `ty` for `client_id`, numbered `transaction_id`.
    /// The amount only matters for deposits and withdrawals.
    pub fn new(
        ty: TransactionType,
        client_id: ClientId,
        transaction_id: TransactionId,
        amount: Amount,
    ) -> (r: Transaction)
        ensures
            r@ == (TransactionView { ty, client_id, transaction_id, amount: amount@ }),
    {
        Transaction { ty, client_id, transaction_id, amount }
    }

    pub fn ty(&self) -> (r: TransactionType)
        ensures
            r == self@.ty,
    {
        self.ty
    }

    pub fn client_id(&self) -> (r: ClientId)
        ensures
            r == self@.client_id,
    {
        self.client_id
    }

    pub fn transaction_id(&self) -> (r: TransactionId)
        ensures
            r == self@.transaction_id,
    {
        self.transaction_id
    }

    pub fn amount(&self) -> (r: Amount)
        ensures
            r@ == self@.amount,
    {
        self.amount
    }
}

} // verus!
