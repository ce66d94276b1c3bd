//! Errors of the client and the remediation hints for known API error codes.

use vstd::prelude::*;

verus! {

/// What the client keeps of a failure below the HTTP layer, or of a response
/// whose body could not be read as an error envelope.
#[derive(Debug, Clone, PartialEq, Eq)]
pub struct HttpFailure {
    /// HTTP status, where a response arrived at all.
    pub status: Option<u16>,
    /// Whether the attempt ran into a network timeout.
    pub timed_out: bool,
    /// Description of the failure.
    pub message: String,
}

/// Errors of the WhatsApp Cloud API client.
#[derive(Debug, Clone, PartialEq, Eq)]
pub enum WhatsAppError {
    /// The server rejected the request.
    ApiError {
        message: String,
        error_type: String,
        code: i32,
        subcode: Option<i32>,
        fbtrace_id: String,
        /// Remediation hint, where the error is a known one.
        solution: Option<String>,
    },
    /// The request failed at the HTTP layer or below it.
    HttpError(HttpFailure),
    /// A body was not the JSON document that was expected.
    JsonError(String),
    /// The server throttled the client.
    RateLimitExceeded {
        /// Number of seconds to wait before trying again.
        retry_after_secs: u64,
    },
    /// The credentials were refused.
    AuthenticationError(String),
    /// The caller supplied malformed input.
    ValidationError(String),
    /// A required field is missing.
    MissingField(String),
    /// Any other failure.
    Other(String),
}

/// Result of an operation of the client.
pub type WhatsAppResult<T> = Result<T, WhatsAppError>;

/// Model of one row of the hint table.
pub struct HintRule {
    /// The error type the row is for; `None` for a row keyed by the code alone.
    pub error_type: Option<Seq<char>>,
    pub code: int,
    pub hint: Seq<char>,
}

/// One row of the hint table.
#[derive(Debug, Clone, PartialEq, Eq)]
pub struct SolutionEntry {
    /// The error type the row is for; `None` for a row keyed by the code alone.
    pub error_type: Option<String>,
    pub code: i32,
    pub hint: String,
}

/// The characters of an optional string.
pub open spec fn text_of(s: Option<String>) -> Option<Seq<char>> {
    match s {
        Some(s) => Some(s@),
        None => None,
    }
}

impl View for SolutionEntry {
    type V = HintRule;

    open spec fn view(&self) -> HintRule {
        HintRule { error_type: text_of(self.error_type), code: self.code as int, hint: self.hint@ }
    }
}

/// The models of the rows of a table.
pub open spec fn rules_of(table: Seq<SolutionEntry>) -> Seq<HintRule> {
    Seq::new(table.len(), |i: int| table[i]@)
}

/// The hint table: rows keyed by error type and code first, rows keyed by the
/// code alone after them.
pub open spec fn solution_rules() -> Seq<HintRule> {
    seq![
        HintRule {
            error_type: Some("OAuthException"@),
            code: 190,
            hint: "Check that your access token is valid and has not expired. You may need to generate a new one."@,
        },
        HintRule {
            error_type: Some("OAuthException"@),
            code: 10,
            hint: "Ensure your app has the required permissions. Check your app settings in the Meta Developer Portal."@,
        },
        HintRule {
            error_type: Some("OAuthException"@),
            code: 80004,
            hint: "Your application is making too many requests. Implement rate limiting or exponential backoff."@,
        },
        HintRule {
            error_type: Some("4"@),
            code: 30,
            hint: "You have exceeded the rate at which you can send messages to this user. Wait and try again later."@,
        },
        HintRule {
            error_type: Some("GraphMethodException"@),
            code: 100,
            hint: "One or more parameters in your request are invalid. Check the error details for specific fields to fix."@,
        },
        HintRule {
            error_type: None,
            code: 131000,
            hint: "The message failed to send. Check that the recipient is a valid WhatsApp user and try again."@,
        },
        HintRule {
            error_type: None,
            code: 131005,
            hint: "Your message contains content that is blocked by WhatsApp. Modify your message and try again."@,
        },
        HintRule {
            error_type: None,
            code: 131014,
            hint: "The template you are trying to use has not been approved. Check the status of your template in the Meta Business Manager."@,
        },
        HintRule {
            error_type: None,
            code: 131009,
            hint: "The media upload failed. Ensure the file is a supported format and size (images < 5MB, videos < 16MB, documents < 100MB)."@,
        },
        HintRule {
            error_type: None,
            code: 131051,
            hint: "The media file you are trying to send could not be found. Check the media ID or URL."@,
        },
        HintRule {
            error_type: None,
            code: 132000,
            hint: "The phone number you are trying to use is not enabled for WhatsApp Business API. Verify the number in Meta Business Manager."@,
        },
        HintRule {
            error_type: None,
            code: 132001,
            hint: "The recipient phone number is not a verified WhatsApp user. Ensure the number is correct and the user has WhatsApp installed."@,
        },
    ]
}

/// Whether a row is keyed by exactly this error type (or by none) and code.
pub open spec fn rule_matches(rule: HintRule, error_type: Option<Seq<char>>, code: int) -> bool {
    rule.error_type == error_type && rule.code == code
}

/// The hint of the first row of `rules` from row `from` on with the given key.
pub open spec fn find_rule(
    rules: Seq<HintRule>,
    error_type: Option<Seq<char>>,
    code: int,
    from: int,
) -> Option<Seq<char>>
    decreases rules.len() - from,
{
    if from < 0 || from >= rules.len() {
        None
    } else if rule_matches(rules[from], error_type, code) {
        Some(rules[from].hint)
    } else {
        find_rule(rules, error_type, code, from + 1)
    }
}

/// The hint that `rules` hold for an error: the row for its type and code,
/// else the row for its code alone, else none.
pub open spec fn hint_in(rules: Seq<HintRule>, error_type: Seq<char>, code: int) -> Option<
    Seq<char>,
> {
    match find_rule(rules, Some(error_type), code, 0) {
        Some(hint) => Some(hint),
        None => find_rule(rules, None, code, 0),
    }
}

/// The remediation hint for an error type and code.
pub open spec fn solution_of(error_type: Seq<char>, code: int) -> Option<Seq<char>> {
    hint_in(solution_rules(), error_type, code)
}

/// Whether a row is keyed by this error type and code, or by the code alone.
pub open spec fn rule_covers(rule: HintRule, error_type: Seq<char>, code: int) -> bool {
    rule_matches(rule, Some(error_type), code) || rule_matches(rule, None, code)
}

/// Whether the hint table has a row for this error type and code, or for the
/// code alone.
pub open spec fn is_known_error(error_type: Seq<char>, code: int) -> bool {
    exists|i: int|
        0 <= i < solution_rules().len() && #[trigger] rule_covers(
            solution_rules()[i],
            error_type,
            code,
        )
}

/// A search finds a hint exactly if some row from `from` on has the key.
pub proof fn lemma_find_rule(
    rules: Seq<HintRule>,
    error_type: Option<Seq<char>>,
    code: int,
    from: int,
)
    requires
        0 <= from,
    ensures
        find_rule(rules, error_type, code, from).is_some() <==> exists|i: int|
            from <= i < rules.len() && #[trigger] rule_matches(rules[i], error_type, code),
    decreases rules.len() - from,
{
    if from < rules.len() && !rule_matches(rules[from], error_type, code) {
        lemma_find_rule(rules, error_type, code, from + 1);
    }
}

/// The lookup is a function of the error type and the code: a pair the table
/// knows has a hint, and a pair it does not know has none.
pub proof fn lemma_solution_known(error_type: Seq<char>, code: int)
    ensures
        solution_of(error_type, code).is_some() <==> is_known_error(error_type, code),
{
    let rules = solution_rules();
    lemma_find_rule(rules, Some(error_type), code, 0);
    lemma_find_rule(rules, None, code, 0);
    if solution_of(error_type, code).is_some() {
        if find_rule(rules, Some(error_type), code, 0).is_some() {
            let i = choose|i: int|
                0 <= i < rules.len() && #[trigger] rule_matches(rules[i], Some(error_type), code);
            assert(rule_covers(rules[i], error_type, code));
        } else {
            let i = choose|i: int|
                0 <= i < rules.len() && #[trigger] rule_matches(rules[i], None, code);
            assert(rule_covers(rules[i], error_type, code));
        }
    }
}

fn typed_entry(error_type: &str, code: i32, hint: &str) -> (entry: SolutionEntry)
    ensures
        entry@ == (HintRule { error_type: Some(error_type@), code: code as int, hint: hint@ }),
{
    SolutionEntry { error_type: Some(error_type.to_owned()), code, hint: hint.to_owned() }
}

fn code_entry(code: i32, hint: &str) -> (entry: SolutionEntry)
    ensures
        entry@ == (HintRule { error_type: None, code: code as int, hint: hint@ }),
{
    SolutionEntry { error_type: None, code, hint: hint.to_owned() }
}

/// The hint table as data.
pub fn solution_table() -> (table: Vec<SolutionEntry>)
    ensures
        rules_of(table@) == solution_rules(),
{
    let table = vec![
        typed_entry(
            "OAuthException",
            190,
            "Check that your access token is valid and has not expired. You may need to generate a new one.",
        ),
        typed_entry(
            "OAuthException",
            10,
            "Ensure your app has the required permissions. Check your app settings in the Meta Developer Portal.",
        ),
        typed_entry(
            "OAuthException",
            80004,
            "Your application is making too many requests. Implement rate limiting or exponential backoff.",
        ),
        typed_entry(
            "4",
            30,
            "You have exceeded the rate at which you can send messages to this user. Wait and try again later.",
        ),
        typed_entry(
            "GraphMethodException",
            100,
            "One or more parameters in your request are invalid. Check the error details for specific fields to fix.",
        ),
        code_entry(
            131000,
            "The message failed to send. Check that the recipient is a valid WhatsApp user and try again.",
        ),
        code_entry(
            131005,
            "Your message contains content that is blocked by WhatsApp. Modify your message and try again.",
        ),
        code_entry(
            131014,
            "The template you are trying to use has not been approved. Check the status of your template in the Meta Business Manager.",
        ),
        code_entry(
            131009,
            "The media upload failed. Ensure the file is a supported format and size (images < 5MB, videos < 16MB, documents < 100MB).",
        ),
        code_entry(
            131051,
            "The media file you are trying to send could not be found. Check the media ID or URL.",
        ),
        code_entry(
            132000,
            "The phone number you are trying to use is not enabled for WhatsApp Business API. Verify the number in Meta Business Manager.",
        ),
        code_entry(
            132001,
            "The recipient phone number is not a verified WhatsApp user. Ensure the number is correct and the user has WhatsApp installed.",
        ),
    ];
    table
}

/// Searches `table` for the first row with the given key and hands out a copy
/// of its hint.
pub fn find_hint(table: &Vec<SolutionEntry>, error_type: &Option<String>, code: i32) -> (hint:
    Option<String>)
    ensures
        text_of(hint) == find_rule(rules_of(table@), text_of(*error_type), code as int, 0),
{
    let mut i: usize = 0;
    while i < table.len()
        invariant
            i <= table.len(),
            find_rule(rules_of(table@), text_of(*error_type), code as int, 0) == find_rule(
                rules_of(table@),
                text_of(*error_type),
                code as int,
                i as int,
            ),
        decreases table.len() - i,
    {
        let entry = &table[i];
        let same_type = match (&entry.error_type, error_type) {
            (Some(a), Some(b)) => *a == *b,
            (None, None) => true,
            _ => false,
        };
        if same_type && entry.code == code {
            return Some(entry.hint.clone());
        }
        i = i + 1;
    }
    None
}

/// Looks up remediation hints for API errors.
pub struct ErrorHandler;

impl ErrorHandler {
    /// The remediation hint for an error type and code, where the table has
    /// one: the row for the type and the code is preferred to the row for the
    /// code alone.
    pub fn get_solution(error_type: &str, code: i32) -> (solution: Option<String>)
        ensures
            text_of(solution) == solution_of(error_type@, code as int),
    {
        let table = solution_table();
        let typed = find_hint(&table, &Some(error_type.to_owned()), code);
        match typed {
            Some(hint) => Some(hint),
            None => find_hint(&table, &None, code),
        }
    }

    /// The API error with these fields, enriched with the remediation hint
    /// for its type and code.
    pub fn enhance_error(
        message: String,
        error_type: String,
        code: i32,
        subcode: Option<i32>,
        fbtrace_id: String,
    ) -> (error: WhatsAppError)
        ensures
            error matches WhatsAppError::ApiError {
                message: m,
                error_type: t,
                code: c,
                subcode: s,
                fbtrace_id: f,
                solution,
            } && m == message && t == error_type && c == code && s == subcode && f == fbtrace_id
                && text_of(solution) == solution_of(error_type@, code as int),
    {
        let solution = Self::get_solution(error_type.as_str(), code);
        WhatsAppError::ApiError { message, error_type, code, subcode, fbtrace_id, solution }
    }
}

} // verus!
