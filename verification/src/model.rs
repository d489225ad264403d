//! The statement as it is held between reading and writing.
//!
//! Every field is text exactly as the source document gave it. A field that
//! the source lacks is the empty string.

use vstd::prelude::*;

verus! {

/// A balance of the account at some date.
#[derive(Debug)]
pub struct Balance {
    /// Balance type code, such as `OPBD` or `CLBD`.
    pub balance_type: String,
    /// The amount, as the decimal text of the source.
    pub amount: String,
    /// Currency code of the amount.
    pub currency: String,
    /// `CRDT` or `DBIT`.
    pub credit_debit_ind: String,
    /// Date or timestamp of the balance.
    pub date: String,
}

/// Mathematical model of a [`Balance`].
pub struct BalanceView {
    pub balance_type: Seq<char>,
    pub amount: Seq<char>,
    pub currency: Seq<char>,
    pub credit_debit_ind: Seq<char>,
    pub date: Seq<char>,
}

impl View for Balance {
    type V = BalanceView;

    open spec fn view(&self) -> BalanceView {
        BalanceView {
            balance_type: self.balance_type@,
            amount: self.amount@,
            currency: self.currency@,
            credit_debit_ind: self.credit_debit_ind@,
            date: self.date@,
        }
    }
}

/// The balance of which nothing is known yet.
pub open spec fn empty_balance() -> BalanceView {
    BalanceView {
        balance_type: Seq::empty(),
        amount: Seq::empty(),
        currency: Seq::empty(),
        credit_debit_ind: Seq::empty(),
        date: Seq::empty(),
    }
}

impl Default for Balance {
    fn default() -> (balance: Balance)
        ensures
            balance@ == empty_balance(),
    {
        Balance {
            balance_type: String::new(),
            amount: String::new(),
            currency: String::new(),
            credit_debit_ind: String::new(),
            date: String::new(),
        }
    }
}

impl Clone for Balance {
    fn clone(&self) -> (copy: Balance)
        ensures
            copy@ == self@,
    {
        Balance {
            balance_type: self.balance_type.clone(),
            amount: self.amount.clone(),
            currency: self.currency.clone(),
            credit_debit_ind: self.credit_debit_ind.clone(),
            date: self.date.clone(),
        }
    }
}

/// One entry of the statement.
#[derive(Debug)]
pub struct Transaction {
    /// The amount, as the decimal text of the source.
    pub amount: String,
    /// Currency code of the amount.
    pub currency: String,
    /// `CRDT` or `DBIT`.
    pub credit_debit_ind: String,
    /// Booking date or timestamp.
    pub booking_date: String,
    /// The bank's own transaction code.
    pub bank_tx_code: String,
    /// Free text that came with the entry.
    pub additional_info: String,
    /// Total of charges and taxes, where the entry names one.
    pub charges: Option<String>,
}

/// Mathematical model of a [`Transaction`].
pub struct TransactionView {
    pub amount: Seq<char>,
    pub currency: Seq<char>,
    pub credit_debit_ind: Seq<char>,
    pub booking_date: Seq<char>,
    pub bank_tx_code: Seq<char>,
    pub additional_info: Seq<char>,
    pub charges: Option<Seq<char>>,
}

impl View for Transaction {
    type V = TransactionView;

    open spec fn view(&self) -> TransactionView {
        TransactionView {
            amount: self.amount@,
            currency: self.currency@,
            credit_debit_ind: self.credit_debit_ind@,
            booking_date: self.booking_date@,
            bank_tx_code: self.bank_tx_code@,
            additional_info: self.additional_info@,
            charges: match self.charges {
                Some(text) => Some(text@),
                None => None,
            },
        }
    }
}

/// The entry of which nothing is known yet.
pub open spec fn empty_transaction() -> TransactionView {
    TransactionView {
        amount: Seq::empty(),
        currency: Seq::empty(),
        credit_debit_ind: Seq::empty(),
        booking_date: Seq::empty(),
        bank_tx_code: Seq::empty(),
        additional_info: Seq::empty(),
        charges: None,
    }
}

impl Default for Transaction {
    fn default() -> (transaction: Transaction)
        ensures
            transaction@ == empty_transaction(),
    {
        Transaction {
            amount: String::new(),
            currency: String::new(),
            credit_debit_ind: String::new(),
            booking_date: String::new(),
            bank_tx_code: String::new(),
            additional_info: String::new(),
            charges: None,
        }
    }
}

impl Clone for Transaction {
    fn clone(&self) -> (copy: Transaction)
        ensures
            copy@ == self@,
    {
        Transaction {
            amount: self.amount.clone(),
            currency: self.currency.clone(),
            credit_debit_ind: self.credit_debit_ind.clone(),
            booking_date: self.booking_date.clone(),
            bank_tx_code: self.bank_tx_code.clone(),
            additional_info: self.additional_info.clone(),
            charges: match &self.charges {
                Some(text) => Some(text.clone()),
                None => None,
            },
        }
    }
}

/// The models of a list of balances, in order.
pub open spec fn balance_views(balances: Seq<Balance>) -> Seq<BalanceView> {
    balances.map_values(|b: Balance| b@)
}

/// The models of a list of entries, in order.
pub open spec fn transaction_views(transactions: Seq<Transaction>) -> Seq<TransactionView> {
    transactions.map_values(|t: Transaction| t@)
}

/// An account statement: its header, its balances and its entries, the last
/// two in the order of the source document.
#[derive(Debug)]
pub struct Statement {
    /// Identifier of the statement.
    pub id: String,
    /// When the statement was created.
    pub creation_datetime: String,
    /// Start of the period that the statement covers.
    pub from_datetime: String,
    /// End of the period that the statement covers.
    pub to_datetime: String,
    /// IBAN of the account.
    pub iban: String,
    /// Currency of the account.
    pub currency: String,
    /// Name of the account's owner.
    pub owner_name: String,
    /// The balances, in document order.
    pub balances: Vec<Balance>,
    /// The entries, in document order.
    pub transactions: Vec<Transaction>,
}

/// Mathematical model of a [`Statement`].
pub struct StatementView {
    pub id: Seq<char>,
    pub creation_datetime: Seq<char>,
    pub from_datetime: Seq<char>,
    pub to_datetime: Seq<char>,
    pub iban: Seq<char>,
    pub currency: Seq<char>,
    pub owner_name: Seq<char>,
    pub balances: Seq<BalanceView>,
    pub transactions: Seq<TransactionView>,
}

impl View for Statement {
    type V = StatementView;

    open spec fn view(&self) -> StatementView {
        StatementView {
            id: self.id@,
            creation_datetime: self.creation_datetime@,
            from_datetime: self.from_datetime@,
            to_datetime: self.to_datetime@,
            iban: self.iban@,
            currency: self.currency@,
            owner_name: self.owner_name@,
            balances: balance_views(self.balances@),
            transactions: transaction_views(self.transactions@),
        }
    }
}

/// The statement of which nothing is known yet.
pub open spec fn empty_statement() -> StatementView {
    StatementView {
        id: Seq::empty(),
        creation_datetime: Seq::empty(),
        from_datetime: Seq::empty(),
        to_datetime: Seq::empty(),
        iban: Seq::empty(),
        currency: Seq::empty(),
        owner_name: Seq::empty(),
        balances: Seq::empty(),
        transactions: Seq::empty(),
    }
}

impl Default for Statement {
    fn default() -> (statement: Statement)
        ensures
            statement@ == empty_statement(),
    {
        let statement = Statement {
            id: String::new(),
            creation_datetime: String::new(),
            from_datetime: String::new(),
            to_datetime: String::new(),
            iban: String::new(),
            currency: String::new(),
            owner_name: String::new(),
            balances: Vec::new(),
            transactions: Vec::new(),
        };
        assert(statement@.balances =~= Seq::empty());
        assert(statement@.transactions =~= Seq::empty());
        statement
    }
}

} // verus!
