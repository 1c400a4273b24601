use vstd::prelude::*;

verus! {

/// Whether `regex::Regex::new` accepts `pattern`.
pub uninterp spec fn regex_compiles(pattern: Seq<char>) -> bool;

/// Whether the regular expression `pattern` matches somewhere in `haystack`
/// (what `regex::Regex::is_match` answers).
pub uninterp spec fn regex_is_match(pattern: Seq<char>, haystack: Seq<char>) -> bool;

#[verifier::external_type_specification]
#[verifier::external_body]
pub struct ExRegex(regex::Regex);

/// Why a search pattern was refused.
#[derive(Clone, Debug, PartialEq, Eq)]
pub enum PatternError {
    /// The pattern is not a valid regular expression; the text explains why.
    Syntax(String),
    /// The compiled expression would exceed this size limit.
    CompiledTooBig(usize),
    /// Another failure that the regex engine reported.
    Other,
}

/// Why `regex::Regex::new` refuses `pattern`, as the library's error (its
/// `Syntax` message, its `CompiledTooBig` limit, or another failure).
pub uninterp spec fn regex_error(pattern: Seq<char>) -> PatternError;

/// Calls `regex::Regex::new`, converting its error to the library's own,
/// variant for variant.
///
/// Claimed of the outside code: it succeeds exactly when the pattern is a
/// valid regular expression (`regex_compiles`), which depends on the
/// pattern alone; the empty pattern is valid (the crate's documentation:
/// "The empty regex is valid and matches the empty string"); and the error
/// it reports is a function of the pattern alone (`regex_error`).
#[verifier::external_body]
fn regex_new(pattern: &str) -> (r: Result<regex::Regex, PatternError>)
    ensures
        r is Ok <==> regex_compiles(pattern@),
        pattern@.len() == 0 ==> r is Ok,
        r matches Err(e) ==> e == regex_error(pattern@),
{
    match regex::Regex::new(pattern) {
        Ok(re) => Ok(re),
        Err(regex::Error::Syntax(text)) => Err(PatternError::Syntax(text)),
        Err(regex::Error::CompiledTooBig(limit)) => Err(PatternError::CompiledTooBig(limit)),
        Err(_) => Err(PatternError::Other),
    }
}

/// A search pattern that is a valid regular expression.
///
/// The only way to obtain one is [`Pattern::new`], which checks that the
/// text compiles; matching compiles the pattern's own text, so what it
/// answers is the verdict of that text and nothing else.
pub struct Pattern {
    source: String,
}

impl View for Pattern {
    type V = Seq<char>;

    /// The text of the regular expression.
    closed spec fn view(&self) -> Seq<char> {
        self.source@
    }
}

/// Calls `regex::Regex::new` on `pattern` and `regex::Regex::is_match` on the
/// expression it compiles.
///
/// Claimed of the outside code: for a pattern that compiles, the answer is
/// `regex_is_match` of the pattern's text and the haystack, a function of
/// the two alone; the empty pattern matches every haystack (it matches the
/// empty string at every position, as the crate's documentation says).
#[verifier::external_body]
fn regex_is_match_exec(pattern: &str, haystack: &str) -> (b: bool)
    requires
        regex_compiles(pattern@),
    ensures
        b == regex_is_match(pattern@, haystack@),
        pattern@.len() == 0 ==> b,
{
    match regex::Regex::new(pattern) {
        Ok(re) => re.is_match(haystack),
        Err(_) => false,
    }
}

impl Pattern {
    /// A pattern's text is always a valid regular expression.
    #[verifier::type_invariant]
    closed spec fn compiles(self) -> bool {
        regex_compiles(self.source@)
    }

    /// Compiles `pattern`; fails exactly when it is not a valid regular
    /// expression.
    pub fn new(pattern: &str) -> (r: Result<Pattern, PatternError>)
        ensures
            r is Ok <==> regex_compiles(pattern@),
            pattern@.len() == 0 ==> r is Ok,
            r matches Ok(p) ==> p@ == pattern@,
            r matches Err(e) ==> e == regex_error(pattern@),
    {
        match regex_new(pattern) {
            Ok(_) => Ok(Pattern { source: pattern.to_owned() }),
            Err(e) => Err(e),
        }
    }

    /// Whether the pattern matches somewhere in `haystack`.
    pub fn is_match(&self, haystack: &str) -> (b: bool)
        ensures
            b == regex_is_match(self@, haystack@),
            self@.len() == 0 ==> b,
            regex_compiles(self@),
    {
        proof {
            use_type_invariant(self);
        }
        regex_is_match_exec(self.source.as_str(), haystack)
    }
}

} // verus!
