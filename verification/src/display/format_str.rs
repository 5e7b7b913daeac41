//! Text that mixes visible content with invisible formatting codes, and knows how many cells its
//! content takes.

use vstd::prelude::*;

verus! {

/// A string together with the number of characters of it that are content, not formatting.
#[derive(Clone, Debug)]
pub struct FormattedString {
    pub len: usize,
    pub string: String,
}

impl Default for FormattedString {
    fn default() -> (s: FormattedString)
        ensures
            s.len == 0,
            s.string@ == Seq::<char>::empty(),
    {
        FormattedString { len: 0, string: String::new() }
    }
}

impl FormattedString {
    /// Content only.
    pub fn of_content(content: &str) -> (s: FormattedString)
        ensures
            s.string@ == content@,
            s.len == content@.len(),
    {
        let len = content.unicode_len();
        FormattedString { len, string: String::from_str(content) }
    }

    /// Formatting only.
    pub fn new_with_formatting(formatting: &str) -> (s: FormattedString)
        ensures
            s.string@ == formatting@,
            s.len == 0,
    {
        FormattedString { len: 0, string: String::from_str(formatting) }
    }

    /// The whole text, formatting included.
    pub fn as_str(&self) -> (s: &str)
        ensures
            s@ == self.string@,
    {
        self.string.as_str()
    }

    /// The number of characters of content.
    pub fn len(&self) -> (n: usize)
        ensures
            n == self.len,
    {
        self.len
    }

    /// Appends content.
    pub fn push_content(self, content: &str) -> (s: FormattedString)
        requires
            self.len + content@.len() <= usize::MAX,
        ensures
            s.string@ == self.string@ + content@,
            s.len == self.len + content@.len(),
    {
        let mut result = self;
        let content_len = content.unicode_len();
        result.string.append(content);
        result.len = result.len + content_len;
        result
    }

    /// Appends formatting, which takes no room.
    pub fn push_formatting(self, formatting: &str) -> (s: FormattedString)
        ensures
            s.string@ == self.string@ + formatting@,
            s.len == self.len,
    {
        let mut result = self;
        result.string.append(formatting);
        result
    }

    /// Appends another formatted string.
    pub fn push_formatted_content(self, format_str: &FormattedString) -> (s: FormattedString)
        requires
            self.len + format_str.len <= usize::MAX,
        ensures
            s.string@ == self.string@ + format_str.string@,
            s.len == self.len + format_str.len,
    {
        let mut result = self;
        result.string.append(format_str.as_str());
        result.len = result.len + format_str.len();
        result
    }
}

/// Text taken as content.
impl From<String> for FormattedString {
    fn from(content: String) -> (s: FormattedString) {
        let len = content.as_str().unicode_len();
        FormattedString { len, string: content }
    }
}

impl vstd::std_specs::convert::FromSpecImpl<String> for FormattedString {
    open spec fn obeys_from_spec() -> bool {
        true
    }

    open spec fn from_spec(content: String) -> FormattedString {
        FormattedString { len: content@.len() as usize, string: content }
    }
}

} // verus!
