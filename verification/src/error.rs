use vstd::prelude::*;

verus! {

/// The errors of batch binding.
#[derive(Debug, Clone, PartialEq, Eq)]
pub enum BatchError {
    /// The statement has no placeholder of this name (the name is given
    /// without its leading colon).
    UnknownPlaceholder { name: String },
    /// An argument array does not have one element per row.
    LengthMismatch { param: String, len: usize, batch_size: usize },
    /// A single value was given where an array of values is needed.
    SingleValue { value_type: String },
    /// Bytes returned for a text column are not valid UTF-8.
    InvalidText { row: usize },
    /// A positional argument has no placeholder at its position.
    NoSuchPosition { pos: usize, count: usize },
    /// The value buffer of an argument would not fit in memory.
    BufferTooLarge { param: String },
}

/// The character of the decimal digit `d`.
pub open spec fn digit_char(d: nat) -> char {
    (d + 48) as char
}

/// The decimal notation of `n`, without leading zeros.
pub open spec fn decimal(n: nat) -> Seq<char>
    decreases n,
{
    if n < 10 {
        seq![digit_char(n)]
    } else {
        decimal(n / 10).push(digit_char(n % 10))
    }
}

/// The text of a single decimal digit.
fn digit_str(d: usize) -> (r: &'static str)
    requires
        d < 10,
    ensures
        r@ == seq![digit_char(d as nat)],
{
    proof {
        reveal_strlit("0");
        reveal_strlit("1");
        reveal_strlit("2");
        reveal_strlit("3");
        reveal_strlit("4");
        reveal_strlit("5");
        reveal_strlit("6");
        reveal_strlit("7");
        reveal_strlit("8");
        reveal_strlit("9");
    }
    match d {
        0 => "0",
        1 => "1",
        2 => "2",
        3 => "3",
        4 => "4",
        5 => "5",
        6 => "6",
        7 => "7",
        8 => "8",
        _ => "9",
    }
}

/// `n` written in decimal.
pub fn decimal_string(n: usize) -> (s: String)
    ensures
        s@ == decimal(n as nat),
    decreases n,
{
    if n < 10 {
        String::from_str(digit_str(n))
    } else {
        let mut s = decimal_string(n / 10);
        s.append(digit_str(n % 10));
        s
    }
}

impl BatchError {
    /// The text of the error, as it is shown to users.
    pub open spec fn spec_message(self) -> Seq<char> {
        match self {
            BatchError::UnknownPlaceholder { name } => "Statement does not define parameter placeholder "@ + name@,
            BatchError::LengthMismatch { param, len, batch_size } =>
                "Parameter '"@ + param@ + "' has "@ + decimal(len as nat) + " elements but batch size is "@
                    + decimal(batch_size as nat),
            BatchError::SingleValue { value_type } =>
                "Single value of type "@ + value_type@ + " cannot be used with execute_batch. Use a slice instead."@,
            BatchError::InvalidText { row } => "Row "@ + decimal(row as nat) + " returned text that is not valid UTF-8"@,
            BatchError::NoSuchPosition { pos, count } =>
                "Statement has "@ + decimal(count as nat) + " parameter placeholders, none at position "@
                    + decimal(pos as nat),
            BatchError::BufferTooLarge { param } => "Parameter '"@ + param@ + "' is too large to bind"@,
        }
    }

    /// The text of the error, as it is shown to users.
    pub fn message(&self) -> (r: String)
        ensures
            r@ == self.spec_message(),
    {
        match self {
            BatchError::UnknownPlaceholder { name } => {
                let mut s = String::from_str("Statement does not define parameter placeholder ");
                s.append(name.as_str());
                s
            },
            BatchError::LengthMismatch { param, len, batch_size } => {
                let mut s = String::from_str("Parameter '");
                s.append(param.as_str());
                s.append("' has ");
                s.append(decimal_string(*len).as_str());
                s.append(" elements but batch size is ");
                s.append(decimal_string(*batch_size).as_str());
                s
            },
            BatchError::SingleValue { value_type } => {
                let mut s = String::from_str("Single value of type ");
                s.append(value_type.as_str());
                s.append(" cannot be used with execute_batch. Use a slice instead.");
                s
            },
            BatchError::InvalidText { row } => {
                let mut s = String::from_str("Row ");
                s.append(decimal_string(*row).as_str());
                s.append(" returned text that is not valid UTF-8");
                s
            },
            BatchError::NoSuchPosition { pos, count } => {
                let mut s = String::from_str("Statement has ");
                s.append(decimal_string(*count).as_str());
                s.append(" parameter placeholders, none at position ");
                s.append(decimal_string(*pos).as_str());
                s
            },
            BatchError::BufferTooLarge { param } => {
                let mut s = String::from_str("Parameter '");
                s.append(param.as_str());
                s.append("' is too large to bind");
                s
            },
        }
    }
}

} // verus!
