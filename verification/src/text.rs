//! Character-level helpers: HTTP header syntax checks and placeholder
//! substitution for the configured header-value template.

use vstd::prelude::*;

verus! {

/// A character allowed in an HTTP header name (an RFC 7230 token character).
pub open spec fn is_header_name_char(c: char) -> bool {
    ||| ('a' <= c && c <= 'z')
    ||| ('A' <= c && c <= 'Z')
    ||| ('0' <= c && c <= '9')
    ||| c == '!'
    ||| c == '#'
    ||| c == '$'
    ||| c == '%'
    ||| c == '&'
    ||| c == '\''
    ||| c == '*'
    ||| c == '+'
    ||| c == '-'
    ||| c == '.'
    ||| c == '^'
    ||| c == '_'
    ||| c == '`'
    ||| c == '|'
    ||| c == '~'
}

/// A character allowed in an HTTP header value: horizontal tab, space, or a
/// visible ASCII character.
pub open spec fn is_header_value_char(c: char) -> bool {
    c == '\t' || (' ' <= c && c <= '~')
}

/// A valid HTTP header name: non-empty and made of token characters only.
pub open spec fn valid_header_name(s: Seq<char>) -> bool {
    s.len() > 0 && forall|i: int| 0 <= i < s.len() ==> #[trigger] is_header_name_char(s[i])
}

/// A valid HTTP header value: every character is tab, space or visible ASCII.
pub open spec fn valid_header_value(s: Seq<char>) -> bool {
    forall|i: int| 0 <= i < s.len() ==> #[trigger] is_header_value_char(s[i])
}

fn exec_is_header_name_char(c: char) -> (ok: bool)
    ensures
        ok == is_header_name_char(c),
{
    ('a' <= c && c <= 'z') || ('A' <= c && c <= 'Z') || ('0' <= c && c <= '9') || c == '!'
        || c == '#' || c == '$' || c == '%' || c == '&' || c == '\'' || c == '*' || c == '+'
        || c == '-' || c == '.' || c == '^' || c == '_' || c == '`' || c == '|' || c == '~'
}

fn exec_is_header_value_char(c: char) -> (ok: bool)
    ensures
        ok == is_header_value_char(c),
{
    c == '\t' || (' ' <= c && c <= '~')
}

/// Decides whether `s` is a valid HTTP header name.
pub fn check_header_name(s: &str) -> (ok: bool)
    ensures
        ok == valid_header_name(s@),
{
    let n = s.unicode_len();
    if n == 0 {
        return false;
    }
    let mut i: usize = 0;
    while i < n
        invariant
            n == s@.len(),
            0 <= i <= n,
            forall|j: int| 0 <= j < i ==> #[trigger] is_header_name_char(s@[j]),
        decreases n - i,
    {
        if !exec_is_header_name_char(s.get_char(i)) {
            return false;
        }
        i = i + 1;
    }
    true
}

/// Decides whether `s` is a valid HTTP header value.
pub fn check_header_value(s: &str) -> (ok: bool)
    ensures
        ok == valid_header_value(s@),
{
    let n = s.unicode_len();
    let mut i: usize = 0;
    while i < n
        invariant
            n == s@.len(),
            0 <= i <= n,
            forall|j: int| 0 <= j < i ==> #[trigger] is_header_value_char(s@[j]),
        decreases n - i,
    {
        if !exec_is_header_value_char(s.get_char(i)) {
            return false;
        }
        i = i + 1;
    }
    true
}

/// The result of replacing, left to right, every occurrence of the two-character
/// placeholder `{}` in `template` with `token`; characters of a substituted
/// token are not scanned again.
pub open spec fn render_spec(template: Seq<char>, token: Seq<char>) -> Seq<char>
    decreases template.len(),
{
    if template.len() >= 2 && template[0] == '{' && template[1] == '}' {
        token + render_spec(template.skip(2), token)
    } else if template.len() >= 1 {
        seq![template[0]] + render_spec(template.skip(1), token)
    } else {
        Seq::<char>::empty()
    }
}

/// Substitutes `token` for each `{}` placeholder in `template`.
pub fn render_template(template: &str, token: &str) -> (out: String)
    ensures
        out@ == render_spec(template@, token@),
{
    let n = template.unicode_len();
    let mut out = String::new();
    let mut i: usize = 0;
    proof {
        assert(template@.skip(0) =~= template@);
        assert(out@ + render_spec(template@, token@) =~= render_spec(template@, token@));
    }
    while i < n
        invariant
            n == template@.len(),
            0 <= i <= n,
            render_spec(template@, token@) == out@ + render_spec(
                template@.skip(i as int),
                token@,
            ),
        decreases n - i,
    {
        let ghost rest = template@.skip(i as int);
        if i + 1 < n && template.get_char(i) == '{' && template.get_char(i + 1) == '}' {
            proof {
                assert(rest.len() >= 2);
                assert(rest[0] == '{' && rest[1] == '}');
                assert(rest.skip(2) =~= template@.skip(i + 2));
                assert(render_spec(rest, token@) == token@ + render_spec(
                    template@.skip(i + 2),
                    token@,
                ));
            }
            out.append(token);
            proof {
                assert(out@ + render_spec(template@.skip(i + 2), token@) =~= render_spec(
                    template@,
                    token@,
                ));
            }
            i = i + 2;
        } else {
            let piece = template.substring_char(i, i + 1);
            proof {
                assert(rest.len() >= 1);
                assert(!(rest.len() >= 2 && rest[0] == '{' && rest[1] == '}'));
                assert(rest.skip(1) =~= template@.skip(i + 1));
                assert(piece@ =~= seq![rest[0]]);
                assert(render_spec(rest, token@) == seq![rest[0]] + render_spec(
                    template@.skip(i + 1),
                    token@,
                ));
            }
            out.append(piece);
            proof {
                assert(out@ + render_spec(template@.skip(i + 1), token@) =~= render_spec(
                    template@,
                    token@,
                ));
            }
            i = i + 1;
        }
    }
    proof {
        assert(template@.skip(n as int) =~= Seq::<char>::empty());
        assert(out@ =~= render_spec(template@, token@));
    }
    out
}

} // verus!
