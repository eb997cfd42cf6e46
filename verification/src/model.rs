use vstd::prelude::*;
use vstd::string::*;

verus! {

/// The weight of one limb of a magnitude: two to the power of 32.
pub open spec fn limb_base() -> nat {
    0x1_0000_0000
}

/// The natural number that a sequence of limbs writes, least significant
/// limb first.
pub open spec fn limbs_value(limbs: Seq<u32>) -> nat
    decreases limbs.len(),
{
    if limbs.len() == 0 {
        0
    } else {
        limbs[0] as nat + limb_base() * limbs_value(limbs.drop_first())
    }
}

/// A sequence of limbs writes zero exactly when every limb is zero.
pub proof fn lemma_limbs_value_zero(limbs: Seq<u32>)
    ensures
        limbs_value(limbs) == 0 <==> forall|i: int| 0 <= i < limbs.len() ==> limbs[i] == 0,
    decreases limbs.len(),
{
    if limbs.len() > 0 {
        let rest = limbs.drop_first();
        lemma_limbs_value_zero(rest);
        if limbs_value(limbs) == 0 {
            assert(limbs[0] == 0);
            assert(limbs_value(rest) == 0);
            assert forall|i: int| 0 <= i < limbs.len() implies limbs[i] == 0 by {
                if i > 0 {
                    assert(rest[i - 1] == limbs[i]);
                }
            }
        }
        if forall|i: int| 0 <= i < limbs.len() ==> limbs[i] == 0 {
            assert(limbs[0] == 0);
            assert forall|i: int| 0 <= i < rest.len() implies rest[i] == 0 by {
                assert(rest[i] == limbs[i + 1]);
            }
        }
    }
}

/// An amount of money: a decimal number of any size.
///
/// The number is `unscaled() / 10^scale`, where the unscaled integer is
/// written as a sign and a magnitude in limbs of 32 bits, least significant
/// limb first. Leading zero limbs and a negative zero are allowed and change
/// nothing.
#[derive(Debug, Clone, PartialEq, Eq)]
pub struct Decimal {
    pub negative: bool,
    pub magnitude: Vec<u32>,
    pub scale: i64,
}

impl Decimal {
    /// The integer of which this number is the `10^scale`-th part.
    pub open spec fn unscaled(&self) -> int {
        if self.negative {
            -(limbs_value(self.magnitude@) as int)
        } else {
            limbs_value(self.magnitude@) as int
        }
    }

    /// Whether the number is greater than zero. The power of ten by which
    /// the unscaled integer is divided is positive, so the number has the
    /// sign of its unscaled integer.
    pub open spec fn positive(&self) -> bool {
        self.unscaled() > 0
    }

    /// The whole number `value`, with scale zero.
    pub fn from_i32(value: i32) -> (res: Decimal)
        ensures
            res.unscaled() == value,
            res.scale == 0,
    {
        let wide: i64 = value as i64;
        let size: i64 = if wide < 0 {
            -wide
        } else {
            wide
        };
        let mut magnitude: Vec<u32> = Vec::new();
        magnitude.push(size as u32);
        proof {
            assert(magnitude@.drop_first() =~= Seq::<u32>::empty());
            assert(limbs_value(magnitude@.drop_first()) == 0);
            assert(limbs_value(magnitude@) == size);
        }
        Decimal { negative: value < 0, magnitude, scale: 0 }
    }

    /// Whether the number is greater than zero.
    pub fn is_positive(&self) -> (res: bool)
        ensures
            res == self.positive(),
    {
        if self.negative {
            return false;
        }
        let mut i: usize = 0;
        while i < self.magnitude.len()
            invariant
                !self.negative,
                i <= self.magnitude.len(),
                forall|j: int| 0 <= j < i ==> self.magnitude@[j] == 0,
            decreases self.magnitude.len() - i,
        {
            if self.magnitude[i] != 0 {
                proof {
                    lemma_limbs_value_zero(self.magnitude@);
                }
                return true;
            }
            i += 1;
        }
        proof {
            lemma_limbs_value_zero(self.magnitude@);
        }
        false
    }
}

/// A calendar date. Dates are ordered by year, then month, then day.
#[derive(Debug, Clone, Copy, PartialEq, Eq, Structural)]
pub struct Date {
    pub year: i32,
    pub month: u32,
    pub day: u32,
}

impl Date {
    /// Whether this date comes later than `other`.
    pub open spec fn later_than(&self, other: &Date) -> bool {
        ||| self.year > other.year
        ||| self.year == other.year && self.month > other.month
        ||| self.year == other.year && self.month == other.month && self.day > other.day
    }

    /// Whether this date comes later than `other`.
    pub fn is_after(&self, other: &Date) -> (res: bool)
        ensures
            res == self.later_than(other),
    {
        if self.year != other.year {
            self.year > other.year
        } else if self.month != other.month {
            self.month > other.month
        } else {
            self.day > other.day
        }
    }
}

/// A rule that a record as a whole can break.
#[derive(Debug, Clone, Copy, PartialEq, Eq, Structural)]
pub enum ValidationError {
    /// An amount is zero or negative.
    AmountNotPositive,
    /// A period starts after it ends.
    StartAfterEnd,
    /// A category is not one of the known categories.
    WrongCategory,
}

impl ValidationError {
    /// The code of the rule, as clients are told it.
    pub open spec fn code_spec(&self) -> Seq<char> {
        match self {
            ValidationError::AmountNotPositive => "amount must be positive"@,
            ValidationError::StartAfterEnd => "start_date must be before end_date"@,
            ValidationError::WrongCategory => "wrong category"@,
        }
    }

    /// The code of the rule, as clients are told it.
    pub fn code(&self) -> (res: String)
        ensures
            res@ == self.code_spec(),
    {
        match self {
            ValidationError::AmountNotPositive => String::from_str("amount must be positive"),
            ValidationError::StartAfterEnd => String::from_str(
                "start_date must be before end_date",
            ),
            ValidationError::WrongCategory => String::from_str("wrong category"),
        }
    }
}

/// Accepts an amount exactly when it is greater than zero.
pub fn validate_positive_amount(amount: &Decimal) -> (res: Result<(), ValidationError>)
    ensures
        res == (if amount.positive() {
            Ok::<(), ValidationError>(())
        } else {
            Err::<(), ValidationError>(ValidationError::AmountNotPositive)
        }),
{
    if amount.is_positive() {
        Ok(())
    } else {
        Err(ValidationError::AmountNotPositive)
    }
}

/// Accepts a period exactly when it does not start after it ends.
pub fn validate_start_date_before_end_date(start_date: &Date, end_date: &Date) -> (res: Result<
    (),
    ValidationError,
>)
    ensures
        res == (if start_date.later_than(end_date) {
            Err::<(), ValidationError>(ValidationError::StartAfterEnd)
        } else {
            Ok::<(), ValidationError>(())
        }),
{
    if start_date.is_after(end_date) {
        Err(ValidationError::StartAfterEnd)
    } else {
        Ok(())
    }
}

/// The uppercase mapping of a character, as `char::to_uppercase` yields it:
/// one character or more.
pub uninterp spec fn uppercase_of(c: char) -> Seq<char>;

/// The lowercase form of a text, as `str::to_lowercase` returns it.
pub uninterp spec fn lowercase_of(text: Seq<char>) -> Seq<char>;

/// Calls `char::to_uppercase` and collects the characters it yields.
#[verifier::external_body]
fn char_to_uppercase(c: char) -> (res: String)
    ensures
        res@ == uppercase_of(c),
{
    c.to_uppercase().collect::<String>()
}

/// Calls `str::to_lowercase`.
#[verifier::external_body]
fn str_to_lowercase(text: &str) -> (res: String)
    ensures
        res@ == lowercase_of(text@),
{
    text.to_lowercase()
}

/// A word with its first character in uppercase and the rest in lowercase.
pub open spec fn capitalized(word: Seq<char>) -> Seq<char> {
    if word.len() == 0 {
        Seq::empty()
    } else {
        uppercase_of(word[0]) + lowercase_of(word.subrange(1, word.len() as int))
    }
}

/// Puts the first character of a word in uppercase and the rest in
/// lowercase; an empty word stays empty.
pub fn capitalize_first_letter(word: String) -> (res: String)
    ensures
        res@ == capitalized(word@),
{
    let text = word.as_str();
    let n = text.unicode_len();
    if n == 0 {
        return String::new();
    }
    let mut out = char_to_uppercase(text.get_char(0));
    let rest = str_to_lowercase(text.substring_char(1, n));
    out.append(rest.as_str());
    out
}

/// Whether a text is one of the known categories, written as they are known.
pub open spec fn is_category(text: Seq<char>) -> bool {
    ||| text == "Groceries"@
    ||| text == "Utilities"@
    ||| text == "Entertainment"@
    ||| text == "Rent"@
    ||| text == "Healthcare"@
    ||| text == "Electricity"@
    ||| text == "Education"@
    ||| text == "Subscriptions"@
    ||| text == "Other"@
}

/// Whether two texts are the same.
fn same_text(a: &str, b: &str) -> (res: bool)
    ensures
        res == (a@ == b@),
{
    String::from_str(a) == String::from_str(b)
}

/// Whether a name is one of the known categories, written as they are
/// known: no other case, nothing before or after.
pub fn is_known_category(name: &str) -> (res: bool)
    ensures
        res == is_category(name@),
{
    same_text(name, "Groceries") || same_text(name, "Utilities") || same_text(
        name,
        "Entertainment",
    ) || same_text(name, "Rent") || same_text(name, "Healthcare") || same_text(name, "Electricity")
        || same_text(name, "Education") || same_text(name, "Subscriptions") || same_text(
        name,
        "Other",
    )
}

/// Accepts a category exactly when, with its first character in uppercase
/// and the rest in lowercase, it is one of the known categories.
pub fn validate_category(category: String) -> (res: Result<(), ValidationError>)
    ensures
        res == (if is_category(capitalized(category@)) {
            Ok::<(), ValidationError>(())
        } else {
            Err::<(), ValidationError>(ValidationError::WrongCategory)
        }),
{
    let value = capitalize_first_letter(category);
    if is_known_category(value.as_str()) {
        Ok(())
    } else {
        Err(ValidationError::WrongCategory)
    }
}

/// What the chain of rules for a budget answers: the amount is looked at
/// first, then the period, then the category, and the first rule that is
/// broken is the one reported.
pub open spec fn budget_verdict(
    amount: &Decimal,
    start_date: &Date,
    end_date: &Date,
    category: Seq<char>,
) -> Result<(), ValidationError> {
    if !amount.positive() {
        Err(ValidationError::AmountNotPositive)
    } else if start_date.later_than(end_date) {
        Err(ValidationError::StartAfterEnd)
    } else if !is_category(capitalized(category)) {
        Err(ValidationError::WrongCategory)
    } else {
        Ok(())
    }
}

/// What the chain of rules for a transaction answers: the amount is looked
/// at first, then the category, and the first rule that is broken is the one
/// reported.
pub open spec fn transaction_verdict(amount: &Decimal, category: Seq<char>) -> Result<
    (),
    ValidationError,
> {
    if !amount.positive() {
        Err(ValidationError::AmountNotPositive)
    } else if !is_category(capitalized(category)) {
        Err(ValidationError::WrongCategory)
    } else {
        Ok(())
    }
}

/// What the one rule for an income or a goal answers.
pub open spec fn amount_verdict(amount: &Decimal) -> Result<(), ValidationError> {
    if !amount.positive() {
        Err(ValidationError::AmountNotPositive)
    } else {
        Ok(())
    }
}

fn check_budget(amount: &Decimal, start_date: &Date, end_date: &Date, category: &String) -> (res:
    Result<(), ValidationError>)
    ensures
        res == budget_verdict(amount, start_date, end_date, category@),
{
    match validate_positive_amount(amount) {
        Err(e) => Err(e),
        Ok(()) => match validate_start_date_before_end_date(start_date, end_date) {
            Err(e) => Err(e),
            Ok(()) => validate_category(category.clone()),
        },
    }
}

fn check_transaction(amount: &Decimal, category: &String) -> (res: Result<(), ValidationError>)
    ensures
        res == transaction_verdict(amount, category@),
{
    match validate_positive_amount(amount) {
        Err(e) => Err(e),
        Ok(()) => validate_category(category.clone()),
    }
}

/// A rule on one field that a record can break.
#[derive(Debug, Clone, Copy, PartialEq, Eq, Structural)]
pub enum FieldError {
    UsernameTooShort,
    InvalidEmail,
    PasswordTooShort,
    CategoryTooShort,
    DescriptionTooShort,
    SourceTooShort,
    GoalDescriptionTooShort,
}

impl FieldError {
    /// The name of the field that the rule is about.
    pub open spec fn field_spec(&self) -> Seq<char> {
        match self {
            FieldError::UsernameTooShort => "username"@,
            FieldError::InvalidEmail => "email"@,
            FieldError::PasswordTooShort => "password_hash"@,
            FieldError::CategoryTooShort => "category"@,
            FieldError::DescriptionTooShort => "description"@,
            FieldError::SourceTooShort => "source"@,
            FieldError::GoalDescriptionTooShort => "goal_description"@,
        }
    }

    /// What clients are told when the rule is broken.
    pub open spec fn message_spec(&self) -> Seq<char> {
        match self {
            FieldError::UsernameTooShort => "Username should be more than 2 characters"@,
            FieldError::InvalidEmail => "Invalid email format"@,
            FieldError::PasswordTooShort => "Password must be at least 6 characters long"@,
            FieldError::CategoryTooShort => "Category should be more than 2 characters"@,
            FieldError::DescriptionTooShort => "Description should be more than 2 characters"@,
            FieldError::SourceTooShort => "Description should be more than 2 characters"@,
            FieldError::GoalDescriptionTooShort => "Description should be more than 2 characters"@,
        }
    }

    /// The name of the field that the rule is about.
    pub fn field(&self) -> (res: String)
        ensures
            res@ == self.field_spec(),
    {
        match self {
            FieldError::UsernameTooShort => String::from_str("username"),
            FieldError::InvalidEmail => String::from_str("email"),
            FieldError::PasswordTooShort => String::from_str("password_hash"),
            FieldError::CategoryTooShort => String::from_str("category"),
            FieldError::DescriptionTooShort => String::from_str("description"),
            FieldError::SourceTooShort => String::from_str("source"),
            FieldError::GoalDescriptionTooShort => String::from_str("goal_description"),
        }
    }

    /// What clients are told when the rule is broken.
    pub fn message(&self) -> (res: String)
        ensures
            res@ == self.message_spec(),
    {
        match self {
            FieldError::UsernameTooShort => String::from_str(
                "Username should be more than 2 characters",
            ),
            FieldError::InvalidEmail => String::from_str("Invalid email format"),
            FieldError::PasswordTooShort => String::from_str(
                "Password must be at least 6 characters long",
            ),
            FieldError::CategoryTooShort => String::from_str(
                "Category should be more than 2 characters",
            ),
            FieldError::DescriptionTooShort => String::from_str(
                "Description should be more than 2 characters",
            ),
            FieldError::SourceTooShort => String::from_str(
                "Description should be more than 2 characters",
            ),
            FieldError::GoalDescriptionTooShort => String::from_str(
                "Description should be more than 2 characters",
            ),
        }
    }
}

/// The shortest user name that is accepted, in characters.
pub const MIN_USERNAME: usize = 3;

/// The shortest password that is accepted, in characters.
pub const MIN_PASSWORD: usize = 6;

/// The shortest category, description or source that is accepted, in
/// characters.
pub const MIN_TEXT: usize = 3;

/// Whether a text is an email address as `validator::validate_email` reads
/// one: the HTML5 form of an address, with length limits on both parts.
pub uninterp spec fn email_format(text: Seq<char>) -> bool;

/// Calls `validator::validate_email`, whose answer depends on the text
/// alone.
#[verifier::external_body]
fn has_email_format(text: &str) -> (res: bool)
    ensures
        res == email_format(text@),
{
    validator::validate_email(text)
}

/// The error, if any, of a text that must have `min` characters or more.
pub open spec fn length_errors(text: Seq<char>, min: usize, error: FieldError) -> Seq<FieldError> {
    if text.len() < min {
        seq![error]
    } else {
        Seq::empty()
    }
}

/// The error, if any, of an optional text that must have `min` characters
/// or more where it is there.
pub open spec fn optional_length_errors(
    text: Option<Seq<char>>,
    min: usize,
    error: FieldError,
) -> Seq<FieldError> {
    match text {
        Some(text) => length_errors(text, min, error),
        None => Seq::empty(),
    }
}

/// The error, if any, of an address, given whether it has the form of one.
pub open spec fn format_errors(well_formed: bool) -> Seq<FieldError> {
    if well_formed {
        Seq::empty()
    } else {
        seq![FieldError::InvalidEmail]
    }
}

/// The error, if any, of a text that must be an email address.
pub open spec fn email_errors(text: Seq<char>) -> Seq<FieldError> {
    format_errors(email_format(text))
}

fn check_length(text: &str, min: usize, error: FieldError, errors: &mut Vec<FieldError>)
    ensures
        final(errors)@ == old(errors)@ + length_errors(text@, min, error),
{
    if text.unicode_len() < min {
        errors.push(error);
    }
}

fn check_format(well_formed: bool, errors: &mut Vec<FieldError>)
    ensures
        final(errors)@ == old(errors)@ + format_errors(well_formed),
{
    if !well_formed {
        errors.push(FieldError::InvalidEmail);
    }
}

/// The field rules that a user breaks, given whether the address has the
/// form of one: all of them, in the order of the fields.
pub fn user_field_errors(username: &str, email_well_formed: bool, password: &str) -> (errors: Vec<
    FieldError,
>)
    ensures
        errors@ == length_errors(username@, MIN_USERNAME, FieldError::UsernameTooShort)
            + format_errors(email_well_formed) + length_errors(
            password@,
            MIN_PASSWORD,
            FieldError::PasswordTooShort,
        ),
{
    let mut errors: Vec<FieldError> = Vec::new();
    check_length(username, MIN_USERNAME, FieldError::UsernameTooShort, &mut errors);
    check_format(email_well_formed, &mut errors);
    check_length(password, MIN_PASSWORD, FieldError::PasswordTooShort, &mut errors);
    errors
}

/// The field rules that credentials break, given whether the address has
/// the form of one: all of them, in the order of the fields.
pub fn credential_field_errors(email_well_formed: bool, password: &str) -> (errors: Vec<FieldError>)
    ensures
        errors@ == format_errors(email_well_formed) + length_errors(
            password@,
            MIN_PASSWORD,
            FieldError::PasswordTooShort,
        ),
{
    let mut errors: Vec<FieldError> = Vec::new();
    check_format(email_well_formed, &mut errors);
    check_length(password, MIN_PASSWORD, FieldError::PasswordTooShort, &mut errors);
    errors
}

/// The result of a check of the fields: the errors found, all of them and in
/// the order of the fields, or `Ok` where there is none.
pub open spec fn fields_outcome(res: Result<(), Vec<FieldError>>, errors: Seq<FieldError>) -> bool {
    match res {
        Ok(()) => errors.len() == 0,
        Err(found) => found@ == errors && errors.len() > 0,
    }
}

fn fields_result(errors: Vec<FieldError>) -> (res: Result<(), Vec<FieldError>>)
    ensures
        fields_outcome(res, errors@),
{
    if errors.len() == 0 {
        Ok(())
    } else {
        Err(errors)
    }
}

/// Why a record is refused: every field rule that it breaks, and the first
/// rule on the record as a whole that it breaks. A broken rule of one kind
/// never hides a broken rule of the other.
#[derive(Debug, Clone, PartialEq, Eq)]
pub struct Rejection {
    /// The field rules that the record breaks: all of them, in the order of
    /// the fields.
    pub fields: Vec<FieldError>,
    /// The first rule on the record as a whole that it breaks, if it breaks
    /// one.
    pub record: Option<ValidationError>,
}

/// The rule that is broken, if one is.
pub open spec fn broken(verdict: Result<(), ValidationError>) -> Option<ValidationError> {
    match verdict {
        Ok(()) => None,
        Err(error) => Some(error),
    }
}

/// Whether `res` is what the whole validator answers for a record with
/// these field errors and this answer of the rules on the record as a
/// whole: `Ok` where no rule of either kind is broken, else the rejection
/// that holds all the field errors and the record rule that is broken.
pub open spec fn validated(
    res: Result<(), Rejection>,
    errors: Seq<FieldError>,
    verdict: Result<(), ValidationError>,
) -> bool {
    match res {
        Ok(()) => errors.len() == 0 && verdict is Ok,
        Err(rejection) => {
            &&& rejection.fields@ == errors
            &&& rejection.record == broken(verdict)
            &&& (errors.len() > 0 || verdict is Err)
        },
    }
}

/// The answer of the whole validator, given the field rules that are broken
/// and the record rule that is broken: `Ok` where there is neither, else the
/// rejection that holds both.
pub fn rejection_of(fields: Vec<FieldError>, record: Option<ValidationError>) -> (res: Result<
    (),
    Rejection,
>)
    ensures
        res == (if fields@.len() == 0 && record is None {
            Ok::<(), Rejection>(())
        } else {
            Err::<(), Rejection>(Rejection { fields, record })
        }),
{
    if fields.len() == 0 && record.is_none() {
        Ok(())
    } else {
        Err(Rejection { fields, record })
    }
}

/// A user as stored.
#[derive(Debug, Clone, PartialEq, Eq)]
pub struct User {
    pub id: i32,
    pub username: String,
    pub email: String,
    pub password_hash: String,
}

/// A user to be stored, or the new values of one.
#[derive(Debug, Clone, PartialEq, Eq)]
pub struct NewUser {
    pub username: String,
    pub email: String,
    pub password_hash: String,
}

impl NewUser {
    /// Every field rule that the record breaks, in the order of the fields.
    pub open spec fn field_errors(&self) -> Seq<FieldError> {
        length_errors(self.username@, MIN_USERNAME, FieldError::UsernameTooShort) + email_errors(
            self.email@,
        ) + length_errors(self.password_hash@, MIN_PASSWORD, FieldError::PasswordTooShort)
    }

    /// Checks the user name, the email address and the password, and reports
    /// every rule that is broken, not only the first.
    pub fn validate(&self) -> (res: Result<(), Vec<FieldError>>)
        ensures
            fields_outcome(res, self.field_errors()),
    {
        let well_formed = has_email_format(self.email.as_str());
        fields_result(
            user_field_errors(self.username.as_str(), well_formed, self.password_hash.as_str()),
        )
    }
}

/// A user as shown to clients: without the password digest.
#[derive(Debug, Clone, PartialEq, Eq)]
pub struct UserResponse {
    pub id: i32,
    pub username: String,
    pub email: String,
}

/// What a client sends to log in.
#[derive(Debug, Clone, PartialEq, Eq)]
pub struct LoginCredentials {
    pub email: String,
    pub password_hash: String,
}

impl LoginCredentials {
    /// Every field rule that the credentials break, in the order of the
    /// fields.
    pub open spec fn field_errors(&self) -> Seq<FieldError> {
        email_errors(self.email@) + length_errors(
            self.password_hash@,
            MIN_PASSWORD,
            FieldError::PasswordTooShort,
        )
    }

    /// Checks the email address and the password, and reports every rule
    /// that is broken, not only the first.
    pub fn validate(&self) -> (res: Result<(), Vec<FieldError>>)
        ensures
            fields_outcome(res, self.field_errors()),
    {
        let well_formed = has_email_format(self.email.as_str());
        fields_result(credential_field_errors(well_formed, self.password_hash.as_str()))
    }
}

/// The view of an optional text.
pub open spec fn text_of(text: Option<String>) -> Option<Seq<char>> {
    match text {
        Some(s) => Some(s@),
        None => None,
    }
}

/// A budget as stored.
#[derive(Debug, Clone, PartialEq, Eq)]
pub struct Budget {
    pub id: i32,
    pub user_id: Option<i32>,
    pub category: String,
    pub amount: Decimal,
    pub start_date: Date,
    pub end_date: Date,
}

impl Budget {
    /// Every field rule that the record breaks.
    pub open spec fn field_errors(&self) -> Seq<FieldError> {
        length_errors(self.category@, MIN_TEXT, FieldError::CategoryTooShort)
    }

    /// Checks the length of the category.
    pub fn validate_fields(&self) -> (res: Result<(), Vec<FieldError>>)
        ensures
            fields_outcome(res, self.field_errors()),
    {
        let mut errors: Vec<FieldError> = Vec::new();
        check_length(self.category.as_str(), MIN_TEXT, FieldError::CategoryTooShort, &mut errors);
        fields_result(errors)
    }
}

/// A budget to be stored.
#[derive(Debug, Clone, PartialEq, Eq)]
pub struct NewBudget {
    pub user_id: Option<i32>,
    pub category: String,
    pub amount: Decimal,
    pub start_date: Date,
    pub end_date: Date,
}

impl NewBudget {
    /// Every field rule that the record breaks, in the order of the fields.
    pub open spec fn field_errors(&self) -> Seq<FieldError> {
        length_errors(self.category@, MIN_TEXT, FieldError::CategoryTooShort)
    }

    /// What the rules on the record as a whole answer. The amount is
    /// looked at first, then the period, then the category.
    pub open spec fn verdict(&self) -> Result<(), ValidationError> {
        budget_verdict(&self.amount, &self.start_date, &self.end_date, self.category@)
    }

    /// Whether the record breaks no rule at all: the category has
    /// `MIN_TEXT` characters or more, the amount is positive, the period does
    /// not start after it ends, and the category is a known one.
    pub open spec fn valid(&self) -> bool {
        &&& self.category@.len() >= MIN_TEXT
        &&& self.amount.positive()
        &&& !self.start_date.later_than(&self.end_date)
        &&& is_category(capitalized(self.category@))
    }

    /// Checks the length of the category, and reports every rule that is broken. This is
    /// one half of `validate`.
    pub fn validate_fields(&self) -> (res: Result<(), Vec<FieldError>>)
        ensures
            fields_outcome(res, self.field_errors()),
    {
        let mut errors: Vec<FieldError> = Vec::new();
        check_length(self.category.as_str(), MIN_TEXT, FieldError::CategoryTooShort, &mut errors);
        fields_result(errors)
    }

    /// Checks the rules on the record as a whole, and reports the first that
    /// is broken. This is the other half of `validate`.
    pub fn validate_record(&self) -> (res: Result<(), ValidationError>)
        ensures
            res == self.verdict(),
    {
        check_budget(&self.amount, &self.start_date, &self.end_date, &self.category)
    }

    /// Validates the budget: the whole of its rules.
    ///
    /// Every field rule that is broken is reported, and with them the first
    /// rule on the record as a whole that is broken; neither kind hides the
    /// other. So an amount that is not positive is always reported, whatever
    /// else is wrong. The budget is accepted exactly when it breaks no
    /// rule of either kind.
    pub fn validate(&self) -> (res: Result<(), Rejection>)
        ensures
            validated(res, self.field_errors(), self.verdict()),
            res is Ok <==> self.valid(),
            !self.amount.positive() ==> res is Err && res->Err_0.record == Some(
                ValidationError::AmountNotPositive,
            ),
    {
        let fields = match self.validate_fields() {
            Ok(()) => Vec::new(),
            Err(errors) => errors,
        };
        let record = match self.validate_record() {
            Ok(()) => None,
            Err(error) => Some(error),
        };
        proof {
            assert(fields@ =~= self.field_errors());
        }
        rejection_of(fields, record)
    }
}

/// The new values of a budget.
#[derive(Debug, Clone, PartialEq, Eq)]
pub struct UpdateBudget {
    pub category: String,
    pub amount: Decimal,
    pub start_date: Date,
    pub end_date: Date,
}

impl UpdateBudget {
    /// Every field rule that the record breaks, in the order of the fields.
    pub open spec fn field_errors(&self) -> Seq<FieldError> {
        length_errors(self.category@, MIN_TEXT, FieldError::CategoryTooShort)
    }

    /// What the rules on the record as a whole answer. The amount is
    /// looked at first, then the period, then the category.
    pub open spec fn verdict(&self) -> Result<(), ValidationError> {
        budget_verdict(&self.amount, &self.start_date, &self.end_date, self.category@)
    }

    /// Whether the record breaks no rule at all: the category has
    /// `MIN_TEXT` characters or more, the amount is positive, the period does
    /// not start after it ends, and the category is a known one.
    pub open spec fn valid(&self) -> bool {
        &&& self.category@.len() >= MIN_TEXT
        &&& self.amount.positive()
        &&& !self.start_date.later_than(&self.end_date)
        &&& is_category(capitalized(self.category@))
    }

    /// Checks the length of the category, and reports every rule that is broken. This is
    /// one half of `validate`.
    pub fn validate_fields(&self) -> (res: Result<(), Vec<FieldError>>)
        ensures
            fields_outcome(res, self.field_errors()),
    {
        let mut errors: Vec<FieldError> = Vec::new();
        check_length(self.category.as_str(), MIN_TEXT, FieldError::CategoryTooShort, &mut errors);
        fields_result(errors)
    }

    /// Checks the rules on the record as a whole, and reports the first that
    /// is broken. This is the other half of `validate`.
    pub fn validate_record(&self) -> (res: Result<(), ValidationError>)
        ensures
            res == self.verdict(),
    {
        check_budget(&self.amount, &self.start_date, &self.end_date, &self.category)
    }

    /// Validates the update: the whole of its rules.
    ///
    /// Every field rule that is broken is reported, and with them the first
    /// rule on the record as a whole that is broken; neither kind hides the
    /// other. So an amount that is not positive is always reported, whatever
    /// else is wrong. The update is accepted exactly when it breaks no
    /// rule of either kind.
    pub fn validate(&self) -> (res: Result<(), Rejection>)
        ensures
            validated(res, self.field_errors(), self.verdict()),
            res is Ok <==> self.valid(),
            !self.amount.positive() ==> res is Err && res->Err_0.record == Some(
                ValidationError::AmountNotPositive,
            ),
    {
        let fields = match self.validate_fields() {
            Ok(()) => Vec::new(),
            Err(errors) => errors,
        };
        let record = match self.validate_record() {
            Ok(()) => None,
            Err(error) => Some(error),
        };
        proof {
            assert(fields@ =~= self.field_errors());
        }
        rejection_of(fields, record)
    }
}

/// A transaction to be stored.
#[derive(Debug, Clone, PartialEq, Eq)]
pub struct NewTransaction {
    pub user_id: Option<i32>,
    pub amount: Decimal,
    pub category: String,
    pub description: Option<String>,
    pub date: Date,
}

impl NewTransaction {
    /// Every field rule that the record breaks, in the order of the fields.
    pub open spec fn field_errors(&self) -> Seq<FieldError> {
        length_errors(self.category@, MIN_TEXT, FieldError::CategoryTooShort)
            + optional_length_errors(
            text_of(self.description),
            MIN_TEXT,
            FieldError::DescriptionTooShort,
        )
    }

    /// What the rules on the record as a whole answer. The amount is
    /// looked at first, then the category.
    pub open spec fn verdict(&self) -> Result<(), ValidationError> {
        transaction_verdict(&self.amount, self.category@)
    }

    /// Whether the record breaks no rule at all: the category and,
    /// where there is one, the description have `MIN_TEXT` characters or more,
    /// the amount is positive, and the category is a known one.
    pub open spec fn valid(&self) -> bool {
        &&& self.category@.len() >= MIN_TEXT
        &&& self.description matches Some(text) ==> text@.len() >= MIN_TEXT
        &&& self.amount.positive()
        &&& is_category(capitalized(self.category@))
    }

    /// Checks the length of the category and, where there is one, of the
    /// description, and reports every rule that is broken. This is
    /// one half of `validate`.
    pub fn validate_fields(&self) -> (res: Result<(), Vec<FieldError>>)
        ensures
            fields_outcome(res, self.field_errors()),
    {
        let mut errors: Vec<FieldError> = Vec::new();
        check_length(self.category.as_str(), MIN_TEXT, FieldError::CategoryTooShort, &mut errors);
        match &self.description {
            Some(text) => check_length(
                text.as_str(),
                MIN_TEXT,
                FieldError::DescriptionTooShort,
                &mut errors,
            ),
            None => {},
        }
        fields_result(errors)
    }

    /// Checks the rules on the record as a whole, and reports the first that
    /// is broken. This is the other half of `validate`.
    pub fn validate_record(&self) -> (res: Result<(), ValidationError>)
        ensures
            res == self.verdict(),
    {
        check_transaction(&self.amount, &self.category)
    }

    /// Validates the transaction: the whole of its rules.
    ///
    /// Every field rule that is broken is reported, and with them the first
    /// rule on the record as a whole that is broken; neither kind hides the
    /// other. So an amount that is not positive is always reported, whatever
    /// else is wrong. The transaction is accepted exactly when it breaks no
    /// rule of either kind.
    pub fn validate(&self) -> (res: Result<(), Rejection>)
        ensures
            validated(res, self.field_errors(), self.verdict()),
            res is Ok <==> self.valid(),
            !self.amount.positive() ==> res is Err && res->Err_0.record == Some(
                ValidationError::AmountNotPositive,
            ),
    {
        let fields = match self.validate_fields() {
            Ok(()) => Vec::new(),
            Err(errors) => errors,
        };
        let record = match self.validate_record() {
            Ok(()) => None,
            Err(error) => Some(error),
        };
        proof {
            assert(fields@ =~= self.field_errors());
        }
        rejection_of(fields, record)
    }
}

/// The new values of a transaction.
#[derive(Debug, Clone, PartialEq, Eq)]
pub struct UpdateTransaction {
    pub amount: Decimal,
    pub category: String,
    pub description: Option<String>,
    pub date: Date,
}

impl UpdateTransaction {
    /// Every field rule that the record breaks, in the order of the fields.
    pub open spec fn field_errors(&self) -> Seq<FieldError> {
        length_errors(self.category@, MIN_TEXT, FieldError::CategoryTooShort)
            + optional_length_errors(
            text_of(self.description),
            MIN_TEXT,
            FieldError::DescriptionTooShort,
        )
    }

    /// What the rules on the record as a whole answer. The amount is
    /// looked at first, then the category.
    pub open spec fn verdict(&self) -> Result<(), ValidationError> {
        transaction_verdict(&self.amount, self.category@)
    }

    /// Whether the record breaks no rule at all: the category and,
    /// where there is one, the description have `MIN_TEXT` characters or more,
    /// the amount is positive, and the category is a known one.
    pub open spec fn valid(&self) -> bool {
        &&& self.category@.len() >= MIN_TEXT
        &&& self.description matches Some(text) ==> text@.len() >= MIN_TEXT
        &&& self.amount.positive()
        &&& is_category(capitalized(self.category@))
    }

    /// Checks the length of the category and, where there is one, of the
    /// description, and reports every rule that is broken. This is
    /// one half of `validate`.
    pub fn validate_fields(&self) -> (res: Result<(), Vec<FieldError>>)
        ensures
            fields_outcome(res, self.field_errors()),
    {
        let mut errors: Vec<FieldError> = Vec::new();
        check_length(self.category.as_str(), MIN_TEXT, FieldError::CategoryTooShort, &mut errors);
        match &self.description {
            Some(text) => check_length(
                text.as_str(),
                MIN_TEXT,
                FieldError::DescriptionTooShort,
                &mut errors,
            ),
            None => {},
        }
        fields_result(errors)
    }

    /// Checks the rules on the record as a whole, and reports the first that
    /// is broken. This is the other half of `validate`.
    pub fn validate_record(&self) -> (res: Result<(), ValidationError>)
        ensures
            res == self.verdict(),
    {
        check_transaction(&self.amount, &self.category)
    }

    /// Validates the update: the whole of its rules.
    ///
    /// Every field rule that is broken is reported, and with them the first
    /// rule on the record as a whole that is broken; neither kind hides the
    /// other. So an amount that is not positive is always reported, whatever
    /// else is wrong. The update is accepted exactly when it breaks no
    /// rule of either kind.
    pub fn validate(&self) -> (res: Result<(), Rejection>)
        ensures
            validated(res, self.field_errors(), self.verdict()),
            res is Ok <==> self.valid(),
            !self.amount.positive() ==> res is Err && res->Err_0.record == Some(
                ValidationError::AmountNotPositive,
            ),
    {
        let fields = match self.validate_fields() {
            Ok(()) => Vec::new(),
            Err(errors) => errors,
        };
        let record = match self.validate_record() {
            Ok(()) => None,
            Err(error) => Some(error),
        };
        proof {
            assert(fields@ =~= self.field_errors());
        }
        rejection_of(fields, record)
    }
}

/// A transaction as stored.
#[derive(Debug, Clone, PartialEq, Eq)]
pub struct Transaction {
    pub id: i32,
    pub user_id: Option<i32>,
    pub amount: Decimal,
    pub category: String,
    pub description: Option<String>,
    pub date: Date,
}

/// An income to be stored, or the new values of one.
#[derive(Debug, Clone, PartialEq, Eq)]
pub struct NewIncome {
    pub user_id: Option<i32>,
    pub amount: Decimal,
    pub source: String,
    pub date: Date,
}

impl NewIncome {
    /// Every field rule that the record breaks, in the order of the fields.
    pub open spec fn field_errors(&self) -> Seq<FieldError> {
        length_errors(self.source@, MIN_TEXT, FieldError::SourceTooShort)
    }

    /// What the rules on the record as a whole answer. The amount must
    /// be positive.
    pub open spec fn verdict(&self) -> Result<(), ValidationError> {
        amount_verdict(&self.amount)
    }

    /// Whether the record breaks no rule at all: the source has
    /// `MIN_TEXT` characters or more and the amount is positive.
    pub open spec fn valid(&self) -> bool {
        &&& self.source@.len() >= MIN_TEXT
        &&& self.amount.positive()
    }

    /// Checks the length of the source, and reports every rule that is broken. This is
    /// one half of `validate`.
    pub fn validate_fields(&self) -> (res: Result<(), Vec<FieldError>>)
        ensures
            fields_outcome(res, self.field_errors()),
    {
        let mut errors: Vec<FieldError> = Vec::new();
        check_length(self.source.as_str(), MIN_TEXT, FieldError::SourceTooShort, &mut errors);
        fields_result(errors)
    }

    /// Checks the rules on the record as a whole, and reports the first that
    /// is broken. This is the other half of `validate`.
    pub fn validate_record(&self) -> (res: Result<(), ValidationError>)
        ensures
            res == self.verdict(),
    {
        validate_positive_amount(&self.amount)
    }

    /// Validates the income: the whole of its rules.
    ///
    /// Every field rule that is broken is reported, and with them the first
    /// rule on the record as a whole that is broken; neither kind hides the
    /// other. So an amount that is not positive is always reported, whatever
    /// else is wrong. The income is accepted exactly when it breaks no
    /// rule of either kind.
    pub fn validate(&self) -> (res: Result<(), Rejection>)
        ensures
            validated(res, self.field_errors(), self.verdict()),
            res is Ok <==> self.valid(),
            !self.amount.positive() ==> res is Err && res->Err_0.record == Some(
                ValidationError::AmountNotPositive,
            ),
    {
        let fields = match self.validate_fields() {
            Ok(()) => Vec::new(),
            Err(errors) => errors,
        };
        let record = match self.validate_record() {
            Ok(()) => None,
            Err(error) => Some(error),
        };
        proof {
            assert(fields@ =~= self.field_errors());
        }
        rejection_of(fields, record)
    }
}

/// An income as stored.
#[derive(Debug, Clone, PartialEq, Eq)]
pub struct Income {
    pub id: i32,
    pub user_id: Option<i32>,
    pub amount: Decimal,
    pub source: String,
    pub date: Date,
}

/// A savings goal to be stored, or the new values of one.
#[derive(Debug, Clone, PartialEq, Eq)]
pub struct NewGoal {
    pub user_id: Option<i32>,
    pub goal_description: String,
    pub goal_amount: Decimal,
    pub deadline: Date,
    pub saving: Option<Decimal>,
}

impl NewGoal {
    /// Every field rule that the record breaks, in the order of the fields.
    pub open spec fn field_errors(&self) -> Seq<FieldError> {
        length_errors(self.goal_description@, MIN_TEXT, FieldError::GoalDescriptionTooShort)
    }

    /// What the rules on the record as a whole answer. The amount
    /// aimed at must be positive.
    pub open spec fn verdict(&self) -> Result<(), ValidationError> {
        amount_verdict(&self.goal_amount)
    }

    /// Whether the record breaks no rule at all: the description has
    /// `MIN_TEXT` characters or more and the amount aimed at is positive.
    pub open spec fn valid(&self) -> bool {
        &&& self.goal_description@.len() >= MIN_TEXT
        &&& self.goal_amount.positive()
    }

    /// Checks the length of the description, and reports every rule that is broken. This is
    /// one half of `validate`.
    pub fn validate_fields(&self) -> (res: Result<(), Vec<FieldError>>)
        ensures
            fields_outcome(res, self.field_errors()),
    {
        let mut errors: Vec<FieldError> = Vec::new();
        check_length(
            self.goal_description.as_str(),
            MIN_TEXT,
            FieldError::GoalDescriptionTooShort,
            &mut errors,
        );
        fields_result(errors)
    }

    /// Checks the rules on the record as a whole, and reports the first that
    /// is broken. This is the other half of `validate`.
    pub fn validate_record(&self) -> (res: Result<(), ValidationError>)
        ensures
            res == self.verdict(),
    {
        validate_positive_amount(&self.goal_amount)
    }

    /// Validates the goal: the whole of its rules.
    ///
    /// Every field rule that is broken is reported, and with them the first
    /// rule on the record as a whole that is broken; neither kind hides the
    /// other. So an amount that is not positive is always reported, whatever
    /// else is wrong. The goal is accepted exactly when it breaks no
    /// rule of either kind.
    pub fn validate(&self) -> (res: Result<(), Rejection>)
        ensures
            validated(res, self.field_errors(), self.verdict()),
            res is Ok <==> self.valid(),
            !self.goal_amount.positive() ==> res is Err && res->Err_0.record == Some(
                ValidationError::AmountNotPositive,
            ),
    {
        let fields = match self.validate_fields() {
            Ok(()) => Vec::new(),
            Err(errors) => errors,
        };
        let record = match self.validate_record() {
            Ok(()) => None,
            Err(error) => Some(error),
        };
        proof {
            assert(fields@ =~= self.field_errors());
        }
        rejection_of(fields, record)
    }
}

/// A savings goal as stored.
#[derive(Debug, Clone, PartialEq, Eq)]
pub struct Goals {
    pub id: i32,
    pub user_id: Option<i32>,
    pub goal_description: String,
    pub goal_amount: Decimal,
    pub deadline: Date,
    pub saving: Option<Decimal>,
}

} // verus!
