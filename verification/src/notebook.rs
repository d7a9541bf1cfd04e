//! Text fields of notebook files.  A notebook stores a cell's source and a
//! stream's text either as one string or as a list of lines; these
//! functions turn what was read into the text the editor shows.
use vstd::prelude::*;
use vstd::string::StringExecFns;

verus! {

/// The stream an output was written to.
#[derive(Clone, Copy, Debug, PartialEq, Eq, Structural)]
pub enum StreamName {
    Stdout,
    Stderr,
}

/// Text written to a stream, as a notebook stores it.
pub struct StreamContent {
    pub name: String,
    pub text: String,
}

/// A text field as it was read: a list whose items are strings or other
/// values (`None`), a single string, or something else.
pub enum SourceValue {
    Lines(Vec<Option<String>>),
    Text(String),
    Other,
}

/// Why a text field could not be read.
#[derive(Clone, Copy, Debug, PartialEq, Eq, Structural)]
pub enum TextFormatError {
    /// The field is neither a string nor a list.
    InvalidSourceFormat,
    /// The field is neither a string nor a list of strings.
    ExpectedStringOrList,
}

/// The text of a list item: the string, or nothing for another value.
pub open spec fn item_text(item: Option<String>) -> Seq<char> {
    match item {
        Some(s) => s@,
        None => Seq::empty(),
    }
}

/// The first `n` items joined with newlines between them.
pub open spec fn joined_lines(items: Seq<Option<String>>, n: int) -> Seq<char>
    decreases n,
{
    if n <= 0 {
        Seq::empty()
    } else if n == 1 {
        item_text(items[0])
    } else {
        joined_lines(items, n - 1) + seq!['\n'] + item_text(items[n - 1])
    }
}

/// A field's text: a list's items joined with newlines (an item that is not
/// a string counts as empty), or the string itself.
pub fn source_text(value: SourceValue) -> (r: Result<String, TextFormatError>)
    ensures
        match value {
            SourceValue::Lines(items) => r matches Ok(s) && s@ == joined_lines(
                items@,
                items@.len() as int,
            ),
            SourceValue::Text(t) => r matches Ok(s) && s@ == t@,
            SourceValue::Other => r == Err::<String, TextFormatError>(
                TextFormatError::InvalidSourceFormat,
            ),
        },
{
    match value {
        SourceValue::Lines(items) => {
            let mut out = String::new();
            let mut i: usize = 0;
            while i < items.len()
                invariant
                    i <= items.len(),
                    out@ == joined_lines(items@, i as int),
                decreases items.len() - i,
            {
                if i > 0 {
                    out.append("\n");
                    proof {
                        reveal_strlit("\n");
                    }
                }
                match &items[i] {
                    Some(line) => out.append(line.as_str()),
                    None => {},
                }
                proof {
                    if i == 0 {
                        assert(out@ =~= item_text(items@[0]));
                    } else {
                        assert(out@ =~= joined_lines(items@, i as int) + seq!['\n'] + item_text(
                            items@[i as int],
                        ));
                    }
                }
                i += 1;
            }
            Ok(out)
        },
        SourceValue::Text(t) => Ok(t),
        SourceValue::Other => Err(TextFormatError::InvalidSourceFormat),
    }
}

/// The strings among `items`, in order.
pub open spec fn strings_of(items: Seq<Option<String>>) -> Seq<String>
    decreases items.len(),
{
    if items.len() == 0 {
        Seq::empty()
    } else {
        match items.last() {
            Some(s) => strings_of(items.drop_last()).push(s),
            None => strings_of(items.drop_last()),
        }
    }
}

/// A map value's lines: a single string is one line; a list gives its
/// strings, in order, and drops its other values.
pub fn text_lines(value: SourceValue) -> (r: Result<Vec<String>, TextFormatError>)
    ensures
        match value {
            SourceValue::Lines(items) => r matches Ok(lines) && lines@ == strings_of(items@),
            SourceValue::Text(t) => r matches Ok(lines) && lines@ == seq![t],
            SourceValue::Other => r == Err::<Vec<String>, TextFormatError>(
                TextFormatError::ExpectedStringOrList,
            ),
        },
{
    match value {
        SourceValue::Lines(items) => {
            let ghost all = items@;
            let mut lines: Vec<String> = Vec::new();
            let mut i: usize = 0;
            while i < items.len()
                invariant
                    items@ == all,
                    i <= items.len(),
                    lines@ == strings_of(all.take(i as int)),
                decreases items.len() - i,
            {
                proof {
                    assert(all.take(i + 1).drop_last() =~= all.take(i as int));
                    assert(all.take(i + 1).last() == all[i as int]);
                }
                match &items[i] {
                    Some(s) => lines.push(s.clone()),
                    None => {},
                }
                i += 1;
            }
            assert(all.take(all.len() as int) =~= all);
            Ok(lines)
        },
        SourceValue::Text(t) => Ok(vec![t]),
        SourceValue::Other => Err(TextFormatError::ExpectedStringOrList),
    }
}

} // verus!
