//! Texts that the assistant sends: a quoted selection, and the prompt that
//! asks a model to plan code generation.
use vstd::prelude::*;
use vstd::string::StrSliceExecFns;
use vstd::string::StringExecFns;

verus! {

/// Where the line that starts at `from` ends: at the next newline, or at
/// the end of `s`.
pub open spec fn line_end(s: Seq<char>, from: int) -> int
    decreases s.len() - from,
{
    if from >= s.len() || from < 0 {
        s.len() as int
    } else if s[from] == '\n' {
        from
    } else {
        line_end(s, from + 1)
    }
}

/// `line` without one carriage return at its end, where a newline follows
/// it (a carriage return before a newline belongs to the line ending; one
/// at the very end of the text stays in the line).
pub open spec fn without_cr(line: Seq<char>, newline_follows: bool) -> Seq<char> {
    if newline_follows && line.len() > 0 && line.last() == '\r' {
        line.drop_last()
    } else {
        line
    }
}

/// The lines of `s` from position `start` on, as `str::lines` gives them:
/// split at `\n` and at `\r\n`, a lone carriage return at the very end
/// kept, and no empty line after a final newline.
pub open spec fn lines_from(s: Seq<char>, start: int) -> Seq<Seq<char>>
    decreases s.len() - start,
{
    if start >= s.len() || start < 0 {
        Seq::empty()
    } else {
        proof {
            lemma_line_end_bounds(s, start);
        }
        let end = line_end(s, start);
        let line = without_cr(s.subrange(start, end), end < s.len());
        if end >= s.len() {
            seq![line]
        } else {
            seq![line] + lines_from(s, end + 1)
        }
    }
}

/// The lines of `s`.
pub open spec fn text_lines(s: Seq<char>) -> Seq<Seq<char>> {
    lines_from(s, 0)
}

/// The lines, each after `> `, joined with newlines.
pub open spec fn quoted_lines(lines: Seq<Seq<char>>) -> Seq<char>
    decreases lines.len(),
{
    if lines.len() == 0 {
        Seq::empty()
    } else if lines.len() == 1 {
        seq!['>', ' '] + lines[0]
    } else {
        quoted_lines(lines.drop_last()) + seq!['\n', '>', ' '] + lines.last()
    }
}

/// The selection as a message quotes it: nothing for an empty selection;
/// Markdown as a block quote; other text in a code block of its language.
pub open spec fn quoted(language_name: Seq<char>, selected: Seq<char>) -> Option<Seq<char>> {
    if selected.len() == 0 {
        None
    } else if language_name == "markdown"@ {
        Some(quoted_lines(text_lines(selected)))
    } else {
        Some(
            seq!['`', '`', '`'] + language_name + seq!['\n'] + selected + seq!['\n', '`', '`', '`'],
        )
    }
}

/// A line ends at or after its start, at a newline or at the end, with no
/// newline before.
pub proof fn lemma_line_end_bounds(s: Seq<char>, from: int)
    requires
        0 <= from <= s.len(),
    ensures
        from <= line_end(s, from) <= s.len(),
        forall|i: int| from <= i < line_end(s, from) ==> s[i] != '\n',
        line_end(s, from) < s.len() ==> s[line_end(s, from)] == '\n',
    decreases s.len() - from,
{
    if from < s.len() && s[from] != '\n' {
        lemma_line_end_bounds(s, from + 1);
    }
}

/// The lines of `s`, as `str::lines` gives them.
pub fn split_lines(s: &str) -> (lines: Vec<String>)
    ensures
        lines@.len() == text_lines(s@).len(),
        forall|i: int| 0 <= i < lines@.len() ==> #[trigger] lines@[i]@ == text_lines(s@)[i],
{
    let n = s.unicode_len();
    let mut lines: Vec<String> = Vec::new();
    let mut start: usize = 0;
    while start < n
        invariant
            n == s@.len(),
            start <= n,
            ({
                let done = Seq::new(lines@.len(), |i: int| lines@[i]@);
                done + lines_from(s@, start as int) == text_lines(s@)
            }),
        decreases n - start,
    {
        let ghost done = Seq::new(lines@.len(), |i: int| lines@[i]@);
        proof {
            lemma_line_end_bounds(s@, start as int);
        }
        let mut end = start;
        while end < n && s.get_char(end) != '\n'
            invariant
                start <= end <= n,
                n == s@.len(),
                end <= line_end(s@, start as int),
                line_end(s@, start as int) == line_end(s@, end as int),
            decreases n - end,
        {
            proof {
                lemma_line_end_bounds(s@, end + 1);
            }
            end += 1;
        }
        let mut stop = end;
        if end < n && stop > start && s.get_char(stop - 1) == '\r' {
            stop -= 1;
        }
        let line = s.substring_char(start, stop).to_owned();
        proof {
            let l = s@.subrange(start as int, end as int);
            assert(line@ == without_cr(l, end < n)) by {
                if end < n && end > start && s@[end - 1] == '\r' {
                    assert(l.last() == '\r');
                    assert(s@.subrange(start as int, stop as int) =~= l.drop_last());
                } else {
                    assert(s@.subrange(start as int, stop as int) =~= l);
                }
            }
        }
        lines.push(line);
        proof {
            let done2 = Seq::new(lines@.len(), |i: int| lines@[i]@);
            assert(done2 =~= done.push(line@));
            if end >= n {
                assert(lines_from(s@, start as int) == seq![line@]);
                assert(lines_from(s@, n as int) =~= Seq::<Seq<char>>::empty());
                assert(done2 + lines_from(s@, n as int) =~= done + lines_from(s@, start as int));
            } else {
                assert(lines_from(s@, start as int) == seq![line@] + lines_from(s@, end + 1));
                assert(done2 + lines_from(s@, end + 1) =~= done + lines_from(s@, start as int));
            }
        }
        start = if end >= n {
            n
        } else {
            end + 1
        };
    }
    proof {
        let done = Seq::new(lines@.len(), |i: int| lines@[i]@);
        assert(lines_from(s@, start as int) =~= Seq::<Seq<char>>::empty());
        assert(done =~= done + lines_from(s@, start as int));
    }
    lines
}

/// The selected text as the assistant quotes it into a message: nothing
/// for an empty selection; each line after `> ` where the language is
/// Markdown; else a code block tagged with the language's name.
pub fn quote_text(language_name: &str, selected_text: &str) -> (q: Option<String>)
    ensures
        match quoted(language_name@, selected_text@) {
            Some(t) => q matches Some(s) && s@ == t,
            None => q is None,
        },
{
    let n = selected_text.unicode_len();
    if n == 0 {
        return None;
    }
    let markdown = String::from_str("markdown");
    let language = String::from_str(language_name);
    if language == markdown {
        let lines = split_lines(selected_text);
        let ghost views = Seq::new(lines@.len(), |i: int| lines@[i]@);
        assert(views =~= text_lines(selected_text@));
        let mut out = String::new();
        let mut i: usize = 0;
        while i < lines.len()
            invariant
                i <= lines.len(),
                views == Seq::new(lines@.len(), |k: int| lines@[k]@),
                out@ == quoted_lines(views.take(i as int)),
            decreases lines.len() - i,
        {
            if i > 0 {
                out.append("\n");
            }
            out.append("> ");
            out.append(lines[i].as_str());
            proof {
                reveal_strlit("\n");
                reveal_strlit("> ");
                assert(views.take(i + 1).drop_last() =~= views.take(i as int));
                if i == 0 {
                    assert(out@ =~= quoted_lines(views.take(1)));
                } else {
                    assert(out@ =~= quoted_lines(views.take(i as int)) + seq!['\n', '>', ' ']
                        + views[i as int]);
                }
            }
            i += 1;
        }
        assert(views.take(lines@.len() as int) =~= views);
        Some(out)
    } else {
        let mut out = String::from_str("```");
        out.append(language_name);
        out.append("\n");
        out.append(selected_text);
        out.append("\n```");
        proof {
            reveal_strlit("```");
            reveal_strlit("\n");
            reveal_strlit("\n```");
            assert(out@ =~= seq!['`', '`', '`'] + language_name@ + seq!['\n'] + selected_text@
                + seq!['\n', '`', '`', '`']);
        }
        Some(out)
    }
}

/// What std's `str::to_lowercase` makes of `s`: its Unicode lowercase
/// form, as that function defines it (a final capital sigma, for one, is
/// lowered by its context).
pub uninterp spec fn lowercased(s: Seq<char>) -> Seq<char>;

/// `str::to_lowercase`; the result is named `lowercased` of the argument.
#[verifier::external_body]
fn to_lowercase(s: &str) -> (r: String)
    ensures
        r@ == lowercased(s@),
{
    s.to_lowercase()
}

/// The prompt that asks a model which context from the repository it
/// needs to generate code, for the user's prompt and the outline of the
/// file being edited (the language's name written in lower case).
pub open spec fn planning_prompt(
    user_prompt: Seq<char>,
    language: Seq<char>,
    outline: Option<Seq<char>>,
) -> Seq<char> {
    "You're an expert "@ + language + " engineer.\n\n"@ + match outline {
        Some(o) => "You're currently working inside the Zed editor on a file with the following outline:\n```"@
            + language + "\n"@ + o + "\n```\n"@,
        None => Seq::empty(),
    }
        + "In particular, the user's cursor is currently on the '<||>' span in the above outline, with no text selected.\n"@
        + "The user has provided the following prompt: '"@ + user_prompt + "'\n\n"@
        + "It is your task to identify if any additional context is needed from the repository\n"@
}

/// The prompt that asks a model to plan code generation.
pub fn generate_codegen_planning_prompt(
    user_prompt: &str,
    language_name: &str,
    outline: Option<&str>,
) -> (prompt: String)
    ensures
        prompt@ == planning_prompt(
            user_prompt@,
            lowercased(language_name@),
            match outline {
                Some(o) => Some(o@),
                None => None,
            },
        ),
{
    let language = to_lowercase(language_name);
    let mut prompt = String::from_str("You're an expert ");
    prompt.append(language.as_str());
    prompt.append(" engineer.\n\n");
    let ghost head = prompt@;
    match outline {
        Some(o) => {
            prompt.append(
                "You're currently working inside the Zed editor on a file with the following outline:\n```",
            );
            prompt.append(language.as_str());
            prompt.append("\n");
            prompt.append(o);
            prompt.append("\n```\n");
        },
        None => {},
    }
    prompt.append(
        "In particular, the user's cursor is currently on the '<||>' span in the above outline, with no text selected.\n",
    );
    prompt.append("The user has provided the following prompt: '");
    prompt.append(user_prompt);
    prompt.append("'\n\n");
    prompt.append(
        "It is your task to identify if any additional context is needed from the repository\n",
    );
    proof {
        let o = match outline {
            Some(o) => Some(o@),
            None => None::<Seq<char>>,
        };
        assert(prompt@ =~= planning_prompt(user_prompt@, language@, o));
    }
    prompt
}

} // verus!
