use vstd::prelude::*;
use vstd::string::StringExecFns;

verus! {

/// The broad kind of a failure.
#[derive(Debug, Clone, Copy, PartialEq, Eq, Structural)]
pub enum ErrorCategory {
    FileOperationError,
    ValidationError,
    PatchingError,
    PlatformError,
}

impl ErrorCategory {
    /// The human-readable label of the category.
    pub open spec fn label(self) -> Seq<char> {
        match self {
            ErrorCategory::FileOperationError => "File Operation"@,
            ErrorCategory::ValidationError => "Validation"@,
            ErrorCategory::PatchingError => "Patching"@,
            ErrorCategory::PlatformError => "Platform"@,
        }
    }

    pub fn to_string(&self) -> (r: String)
        ensures
            r@ == self.label(),
    {
        match self {
            ErrorCategory::FileOperationError => String::from_str("File Operation"),
            ErrorCategory::ValidationError => String::from_str("Validation"),
            ErrorCategory::PatchingError => String::from_str("Patching"),
            ErrorCategory::PlatformError => String::from_str("Platform"),
        }
    }
}

/// A value attached to an error under a key.
#[derive(Debug, Clone, PartialEq)]
pub enum ContextValue {
    Text(String),
    Int(i64),
}

/// An error with a category, a message, an optional cause (its text) and
/// keyed context values.
#[derive(Debug, Clone)]
pub struct WowPatcherError {
    pub category: ErrorCategory,
    pub message: String,
    pub cause: Option<String>,
    /// Entries in insertion order; a later entry hides an earlier one with the same key.
    pub context: Vec<(String, ContextValue)>,
}

/// The value stored under `key` among the first `n` entries: the last one wins.
pub open spec fn lookup_in(ctx: Seq<(String, ContextValue)>, key: Seq<char>, n: int) -> Option<
    ContextValue,
>
    decreases n,
{
    if n <= 0 {
        None
    } else if ctx[n - 1].0@ == key {
        Some(ctx[n - 1].1)
    } else {
        lookup_in(ctx, key, n - 1)
    }
}

/// The value stored under `key` in a context list.
pub open spec fn lookup(ctx: Seq<(String, ContextValue)>, key: Seq<char>) -> Option<ContextValue> {
    lookup_in(ctx, key, ctx.len() as int)
}

impl WowPatcherError {
    /// The text that the error displays: `[category] message`, then `: cause` when there is one.
    pub open spec fn display(self) -> Seq<char> {
        let head = "["@ + self.category.label() + "] "@ + self.message@;
        match self.cause {
            Some(c) => head + ": "@ + c@,
            None => head,
        }
    }

    pub fn new(category: ErrorCategory, message: &str) -> (r: Self)
        ensures
            r.category == category,
            r.message@ == message@,
            r.cause is None,
            r.context@.len() == 0,
    {
        WowPatcherError {
            category,
            message: String::from_str(message),
            cause: None,
            context: Vec::new(),
        }
    }

    /// An error caused by another failure, of which the text is kept.
    pub fn wrap(category: ErrorCategory, message: &str, cause: &str) -> (r: Self)
        ensures
            r.category == category,
            r.message@ == message@,
            r.cause matches Some(c) && c@ == cause@,
            r.context@.len() == 0,
    {
        WowPatcherError {
            category,
            message: String::from_str(message),
            cause: Some(String::from_str(cause)),
            context: Vec::new(),
        }
    }

    pub fn with_context(self, key: &str, value: ContextValue) -> (r: Self)
        ensures
            r.category == self.category,
            r.message == self.message,
            r.cause == self.cause,
            lookup(r.context@, key@) == Some(value),
            forall|k: Seq<char>| k != key@ ==> lookup(r.context@, k) == lookup(self.context@, k),
    {
        let mut e = self;
        let ghost before = e.context@;
        e.context.push((String::from_str(key), value));
        proof {
            assert forall|k: Seq<char>| k != key@ implies lookup(e.context@, k) == lookup(
                before,
                k,
            ) by {
                lemma_lookup_same(e.context@, before, k, before.len() as int);
            }
        }
        e
    }

    pub fn get_context(&self, key: &str) -> (r: Option<&ContextValue>)
        ensures
            match r {
                Some(v) => lookup(self.context@, key@) == Some(*v),
                None => lookup(self.context@, key@) is None,
            },
    {
        let k = String::from_str(key);
        let mut i: usize = self.context.len();
        while i > 0
            invariant
                i <= self.context@.len(),
                k@ == key@,
                lookup(self.context@, key@) == lookup_in(self.context@, key@, i as int),
            decreases i,
        {
            if self.context[i - 1].0 == k {
                return Some(&self.context[i - 1].1);
            }
            i = i - 1;
        }
        None
    }

    pub fn to_string(&self) -> (r: String)
        ensures
            r@ == self.display(),
    {
        let mut s = String::from_str("[");
        let label = self.category.to_string();
        s.append(label.as_str());
        s.append("] ");
        s.append(self.message.as_str());
        match &self.cause {
            Some(c) => {
                s.append(": ");
                s.append(c.as_str());
            },
            None => {},
        }
        s
    }
}

proof fn lemma_lookup_same(
    a: Seq<(String, ContextValue)>,
    b: Seq<(String, ContextValue)>,
    key: Seq<char>,
    n: int,
)
    requires
        0 <= n <= a.len(),
        n <= b.len(),
        forall|i: int| 0 <= i < n ==> a[i] == b[i],
    ensures
        lookup_in(a, key, n) == lookup_in(b, key, n),
    decreases n,
{
    if n > 0 {
        lemma_lookup_same(a, b, key, n - 1);
    }
}

/// A validation failure that names the offending field and value.
pub fn new_validation_error(message: &str, field: &str, value: ContextValue) -> (r: WowPatcherError)
    ensures
        r.category == ErrorCategory::ValidationError,
        r.message@ == message@,
        r.cause is None,
        lookup(r.context@, "field"@) matches Some(ContextValue::Text(t)) && t@ == field@,
        lookup(r.context@, "value"@) == Some(value),
{
    proof {
        reveal_strlit("field");
        reveal_strlit("value");
        assert("value"@[0] != "field"@[0]);
    }
    WowPatcherError::new(ErrorCategory::ValidationError, message).with_context(
        "field",
        ContextValue::Text(String::from_str(field)),
    ).with_context("value", value)
}

/// A patching failure caused by another failure, naming the pattern involved
/// and suggesting the likely reason.
pub fn new_patching_error(message: &str, cause: &str, pattern: &str) -> (r: WowPatcherError)
    ensures
        r.category == ErrorCategory::PatchingError,
        r.message@ == message@,
        r.cause matches Some(c) && c@ == cause@,
        lookup(r.context@, "pattern"@) matches Some(ContextValue::Text(t)) && t@ == pattern@,
        lookup(r.context@, "suggestion"@) matches Some(ContextValue::Text(t)) && t@
            == "This may be an unsupported WoW version or a pre-patched executable"@,
{
    proof {
        reveal_strlit("pattern");
        reveal_strlit("suggestion");
        assert("pattern"@[0] != "suggestion"@[0]);
    }
    WowPatcherError::wrap(ErrorCategory::PatchingError, message, cause).with_context(
        "pattern",
        ContextValue::Text(String::from_str(pattern)),
    ).with_context(
        "suggestion",
        ContextValue::Text(
            String::from_str("This may be an unsupported WoW version or a pre-patched executable"),
        ),
    )
}

/// The largest executable accepted, in bytes.
pub const MAX_FILE_SIZE: u64 = 1024 * 1024 * 1024;

/// The smallest executable accepted, in bytes.
pub const MIN_FILE_SIZE: u64 = 1024;

/// Checks the size of the input file before it is read: at most
/// `MAX_FILE_SIZE`, not empty, at least `MIN_FILE_SIZE`.
pub fn check_input_size(size: u64) -> (r: Result<(), WowPatcherError>)
    ensures
        r is Ok <==> MIN_FILE_SIZE <= size <= MAX_FILE_SIZE,
        r matches Err(e) ==> e.category == ErrorCategory::ValidationError,
{
    if size > MAX_FILE_SIZE {
        return Err(
            WowPatcherError::new(
                ErrorCategory::ValidationError,
                "File size exceeds maximum allowed size of 1024 MB",
            ),
        );
    }
    if size == 0 {
        return Err(
            WowPatcherError::new(
                ErrorCategory::ValidationError,
                "File is empty - not a valid WoW executable",
            ),
        );
    }
    if size < MIN_FILE_SIZE {
        return Err(
            WowPatcherError::new(
                ErrorCategory::ValidationError,
                "File too small to be a valid executable",
            ),
        );
    }
    Ok(())
}

} // verus!
