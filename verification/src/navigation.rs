//! Pointing the primary window at a URL, by a script that the hosted page
//! runs.
use vstd::prelude::*;
use vstd::string::*;
use vstd::std_specs::iter::IteratorSpec;
use crate::error::ErrorKind;

verus! {

/// The characters that cannot stand bare in the literal of a script: the
/// backslash, the double quote, and the single quote that ends the literal.
pub open spec fn needs_escape(c: char) -> bool {
    c == '\\' || c == '"' || c == '\''
}

/// What stands in the literal of a script for one character of a URL: a
/// backslash before a backslash or a quote of either kind, every other
/// character as it is.
pub open spec fn escape_char(c: char) -> Seq<char> {
    if needs_escape(c) {
        seq!['\\', c]
    } else {
        seq![c]
    }
}

/// A URL with each of its characters escaped.
pub open spec fn escaped(url: Seq<char>) -> Seq<char>
    decreases url.len(),
{
    if url.len() == 0 {
        Seq::empty()
    } else {
        escape_char(url[0]) + escaped(url.skip(1))
    }
}

/// The text that an escaped text stands for: a backslash is dropped and the
/// character behind it kept.
pub open spec fn unescaped(text: Seq<char>) -> Seq<char>
    decreases text.len(),
{
    if text.len() == 0 {
        Seq::empty()
    } else if text[0] == '\\' && text.len() >= 2 {
        seq![text[1]] + unescaped(text.skip(2))
    } else {
        seq![text[0]] + unescaped(text.skip(1))
    }
}

/// No backslash and no quote of either kind stands bare in `text`: each
/// comes right after a backslash that escapes it, and a backslash escapes
/// nothing else.
pub open spec fn well_escaped(text: Seq<char>) -> bool
    decreases text.len(),
{
    if text.len() == 0 {
        true
    } else if text[0] == '\\' {
        text.len() >= 2 && needs_escape(text[1]) && well_escaped(text.skip(2))
    } else {
        !needs_escape(text[0]) && well_escaped(text.skip(1))
    }
}

/// Escaping a text piece by piece gives the pieces' escapes in a row.
pub proof fn lemma_escaped_concat(head: Seq<char>, tail: Seq<char>)
    ensures
        escaped(head + tail) == escaped(head) + escaped(tail),
    decreases head.len(),
{
    if head.len() == 0 {
        assert(head + tail =~= tail);
        assert(escaped(head) + escaped(tail) =~= escaped(tail));
    } else {
        lemma_escaped_concat(head.skip(1), tail);
        assert((head + tail).skip(1) =~= head.skip(1) + tail);
        assert((head + tail)[0] == head[0]);
        assert(escaped(head + tail) =~= escaped(head) + escaped(tail));
    }
}

/// Escaping a text that grew by one character adds that character's escape.
pub proof fn lemma_escaped_push(text: Seq<char>, c: char)
    ensures
        escaped(text.push(c)) == escaped(text) + escape_char(c),
{
    let last = seq![c];
    lemma_escaped_concat(text, last);
    assert(text.push(c) =~= text + last);
    assert(last.skip(1) =~= Seq::<char>::empty());
    assert(escaped(last.skip(1)) =~= Seq::<char>::empty());
    assert(escaped(last) =~= escape_char(c));
}

/// Unescaping gives the URL back, whatever it holds.
pub proof fn law_unescape_inverts_escape(url: Seq<char>)
    ensures
        unescaped(escaped(url)) == url,
    decreases url.len(),
{
    if url.len() > 0 {
        let rest = escaped(url.skip(1));
        let text = escaped(url);
        law_unescape_inverts_escape(url.skip(1));
        if needs_escape(url[0]) {
            assert(text.skip(2) =~= rest);
            assert(unescaped(text) =~= seq![url[0]] + url.skip(1));
        } else {
            assert(text.skip(1) =~= rest);
            assert(unescaped(text) =~= seq![url[0]] + url.skip(1));
        }
        assert(seq![url[0]] + url.skip(1) =~= url);
    }
}

/// In an escaped URL every backslash and every quote is escaped.
pub proof fn law_escaped_is_well_escaped(url: Seq<char>)
    ensures
        well_escaped(escaped(url)),
    decreases url.len(),
{
    if url.len() > 0 {
        let rest = escaped(url.skip(1));
        let text = escaped(url);
        law_escaped_is_well_escaped(url.skip(1));
        if needs_escape(url[0]) {
            assert(text.skip(2) =~= rest);
        } else {
            assert(text.skip(1) =~= rest);
        }
    }
}

/// `String::push`: the character is added at the end.
#[verifier::external_body]
fn push_char(text: &mut String, c: char)
    ensures
        final(text)@ == old(text)@.push(c),
{
    text.push(c)
}

/// Adds the escaped URL at the end of `text`.
pub fn append_escaped(text: &mut String, url: &str)
    ensures
        final(text)@ == old(text)@ + escaped(url@),
{
    let ghost before = text@;
    let ghost mut done: Seq<char> = Seq::empty();
    let mut chars = url.chars();
    assert(before + escaped(done) =~= before);
    assert(done + chars.remaining() =~= url@);
    loop
        invariant
            before == old(text)@,
            done + chars.remaining() == url@,
            text@ == before + escaped(done),
        decreases url@.len() - done.len(),
    {
        let ghost left = chars.remaining();
        match chars.next() {
            Some(c) => {
                proof {
                    lemma_escaped_push(done, c);
                    assert(done.push(c) + left.drop_first() =~= done + left);
                }
                if c == '\\' || c == '"' || c == '\'' {
                    push_char(text, '\\');
                }
                push_char(text, c);
                proof {
                    assert(text@ =~= before + escaped(done.push(c)));
                    done = done.push(c);
                }
            },
            None => {
                proof {
                    assert(done =~= url@);
                }
                return ;
            },
        }
    }
}

/// The URL, escaped for a place between single quotes in a script.
pub fn escape_url(url: &str) -> (r: String)
    ensures
        r@ == escaped(url@),
{
    let mut text = String::new();
    append_escaped(&mut text, url);
    assert(Seq::<char>::empty() + escaped(url@) =~= escaped(url@));
    text
}

/// What stands in a navigation script before the escaped URL: the
/// assignment, up to and with the single quote that opens the literal.
pub open spec fn script_prefix() -> Seq<char> {
    "window.location.href = '"@
}

/// What stands in a navigation script behind the escaped URL: the single
/// quote that closes the literal, and the end of the statement.
pub open spec fn script_suffix() -> Seq<char> {
    "';"@
}

/// The script that sends the hosted page to `url`: an assignment of the
/// escaped URL, between single quotes, to the page's location.
pub open spec fn script_for(url: Seq<char>) -> Seq<char> {
    script_prefix() + escaped(url) + script_suffix()
}

/// Where a literal ends whose contents begin at the start of `text`: the
/// place of the first single quote that no backslash escapes, or the length
/// of `text` where there is none. A backslash takes the character behind it
/// along, whatever it is.
pub open spec fn literal_end(text: Seq<char>) -> int
    decreases text.len(),
{
    if text.len() == 0 || text[0] == '\'' {
        0
    } else if text[0] == '\\' && text.len() >= 2 {
        2 + literal_end(text.skip(2))
    } else {
        1 + literal_end(text.skip(1))
    }
}

/// What a script holds behind the prefix: the literal's contents and all
/// that follows them.
pub open spec fn script_tail(script: Seq<char>) -> Seq<char> {
    script.skip(script_prefix().len() as int)
}

/// The target that a navigation script names, as the page reads it: the
/// contents of the literal that the prefix opens, up to the first single
/// quote that no backslash escapes.
pub open spec fn script_target(script: Seq<char>) -> Seq<char> {
    script_tail(script).take(literal_end(script_tail(script)))
}

/// What a navigation script holds behind the literal that the prefix opens.
pub open spec fn script_rest(script: Seq<char>) -> Seq<char> {
    script_tail(script).skip(literal_end(script_tail(script)))
}

/// No character of an escaped URL ends the literal it stands in: the
/// literal ends where the text behind the escaped URL ends it.
pub proof fn lemma_literal_end_behind_escaped(url: Seq<char>, behind: Seq<char>)
    ensures
        literal_end(escaped(url) + behind) == escaped(url).len() + literal_end(behind),
    decreases url.len(),
{
    let text = escaped(url) + behind;
    if url.len() == 0 {
        assert(text =~= behind);
    } else {
        let rest = escaped(url.skip(1));
        lemma_literal_end_behind_escaped(url.skip(1), behind);
        if needs_escape(url[0]) {
            assert(text[0] == '\\');
            assert(text.skip(2) =~= rest + behind);
        } else {
            assert(text[0] == url[0]);
            assert(text.skip(1) =~= rest + behind);
        }
    }
}

/// In the script for a URL the first single quote behind the prefix that no
/// backslash escapes is the one of the suffix: nothing in the URL ends the
/// literal, whatever the URL holds. What the literal holds is the escaped
/// URL, in which every backslash and every quote is escaped, and which
/// unescaped is the URL again; what follows the literal is the suffix.
pub proof fn law_script_target_is_url(url: Seq<char>)
    ensures
        script_prefix().last() == '\'',
        literal_end(script_tail(script_for(url))) == escaped(url).len(),
        script_target(script_for(url)) == escaped(url),
        script_rest(script_for(url)) == script_suffix(),
        well_escaped(script_target(script_for(url))),
        unescaped(script_target(script_for(url))) == url,
{
    reveal_strlit("window.location.href = '");
    reveal_strlit("';");
    let tail = script_tail(script_for(url));
    assert(tail =~= escaped(url) + script_suffix());
    lemma_literal_end_behind_escaped(url, script_suffix());
    assert(script_suffix()[0] == '\'');
    assert(literal_end(script_suffix()) == 0);
    assert(script_target(script_for(url)) =~= escaped(url));
    assert(script_rest(script_for(url)) =~= script_suffix());
    law_escaped_is_well_escaped(url);
    law_unescape_inverts_escape(url);
}

/// The script that sends the hosted page to `url`. The URL is not examined:
/// whether it can be loaded is for the page to find out.
pub fn navigation_script(url: &str) -> (script: String)
    ensures
        script@ == script_for(url@),
{
    let mut script = String::from_str("window.location.href = '");
    append_escaped(&mut script, url);
    script.append("';");
    script
}

/// Navigates the primary window to `url`: gives the script to run in it, or
/// `WindowNotFound` where there is no primary window.
pub fn navigate(main_window_open: bool, url: &str) -> (r: Result<String, ErrorKind>)
    ensures
        main_window_open ==> r is Ok && r->Ok_0@ == script_for(url@),
        !main_window_open ==> r == Err::<String, ErrorKind>(ErrorKind::WindowNotFound),
{
    if main_window_open {
        Ok(navigation_script(url))
    } else {
        Err(ErrorKind::WindowNotFound)
    }
}

} // verus!
