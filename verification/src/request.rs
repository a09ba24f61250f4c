//! Everything the creation request is made of: the endpoint, the headers and
//! the JSON body, each pinned to an exact character sequence.

use vstd::prelude::*;

verus! {

/// The personal repository-creation endpoint.
pub open spec fn user_endpoint() -> Seq<char> {
    "https://api.github.com/user/repos"@
}

/// The organization-scoped repository-creation endpoint.
pub open spec fn org_endpoint(org: Seq<char>) -> Seq<char> {
    "https://api.github.com/orgs/"@ + org + "/repos"@
}

/// Which endpoint a run targets: the organization's when an owner is given,
/// otherwise the authenticated user's.
pub open spec fn creation_endpoint_spec(org: Option<Seq<char>>) -> Seq<char> {
    match org {
        Some(o) => org_endpoint(o),
        None => user_endpoint(),
    }
}

/// Builds the creation endpoint for the given optional organization owner.
pub fn creation_endpoint(org: &Option<String>) -> (r: String)
    ensures
        r@ == creation_endpoint_spec(org.deep_view()),
{
    match org {
        Some(o) => {
            let mut r = String::from_str("https://api.github.com/orgs/");
            r.append(o.as_str());
            r.append("/repos");
            proof {
                assert(r@ =~= org_endpoint(o@));
            }
            r
        },
        None => String::from_str("https://api.github.com/user/repos"),
    }
}

/// The authorization header value carrying the credential.
pub open spec fn auth_header_spec(token: Seq<char>) -> Seq<char> {
    "token "@ + token
}

/// Builds the authorization header value from the credential.
pub fn auth_header_value(token: &str) -> (r: String)
    ensures
        r@ == auth_header_spec(token@),
{
    let mut r = String::from_str("token ");
    r.append(token);
    r
}

/// The accept header selecting the API's structured response format.
pub fn accept_header() -> (r: &'static str)
    ensures
        r@ == "application/vnd.github+json"@,
{
    "application/vnd.github+json"
}

/// The user-agent identifier this client sends.
pub fn user_agent() -> (r: &'static str)
    ensures
        r@ == "gh-repo-create-cli"@,
{
    "gh-repo-create-cli"
}

/// The character for a single hexadecimal digit, lower case.
pub open spec fn hex_digit(d: nat) -> char {
    if d == 0 {
        '0'
    } else if d == 1 {
        '1'
    } else if d == 2 {
        '2'
    } else if d == 3 {
        '3'
    } else if d == 4 {
        '4'
    } else if d == 5 {
        '5'
    } else if d == 6 {
        '6'
    } else if d == 7 {
        '7'
    } else if d == 8 {
        '8'
    } else if d == 9 {
        '9'
    } else if d == 10 {
        'a'
    } else if d == 11 {
        'b'
    } else if d == 12 {
        'c'
    } else if d == 13 {
        'd'
    } else if d == 14 {
        'e'
    } else {
        'f'
    }
}

/// How one character is written inside a JSON string: quote and backslash get
/// a backslash escape, control characters a `\u00XX` escape, everything else
/// stands as itself.
pub open spec fn escaped_char(c: char) -> Seq<char> {
    if c == '"' {
        seq!['\\', '"']
    } else if c == '\\' {
        seq!['\\', '\\']
    } else if (c as u32) < 32 {
        seq!['\\', 'u', '0', '0', hex_digit((c as u32 / 16) as nat), hex_digit(
            (c as u32 % 16) as nat,
        )]
    } else {
        seq![c]
    }
}

/// A whole character sequence written inside a JSON string.
pub open spec fn escaped(s: Seq<char>) -> Seq<char>
    decreases s.len(),
{
    if s.len() == 0 {
        Seq::empty()
    } else {
        escaped_char(s[0]) + escaped(s.drop_first())
    }
}

proof fn lemma_escaped_snoc(s: Seq<char>, c: char)
    ensures
        escaped(s.push(c)) == escaped(s) + escaped_char(c),
    decreases s.len(),
{
    if s.len() == 0 {
        assert(s.push(c)[0] == c);
        assert(s.push(c).drop_first() =~= Seq::<char>::empty());
        assert(escaped(s.push(c)) == escaped_char(c) + escaped(s.push(c).drop_first()));
        assert(escaped(s.push(c)) =~= escaped(s) + escaped_char(c));
    } else {
        assert(s.push(c)[0] == s[0]);
        assert(s.push(c).drop_first() =~= s.drop_first().push(c));
        lemma_escaped_snoc(s.drop_first(), c);
        assert(escaped(s.push(c)) == escaped_char(s[0]) + escaped(s.drop_first().push(c)));
        assert(escaped(s.push(c)) =~= escaped(s) + escaped_char(c));
    }
}

fn hex_digit_str(d: u32) -> (r: &'static str)
    requires
        d < 16,
    ensures
        r@ == seq![hex_digit(d as nat)],
{
    let r: &'static str = match d {
        0 => "0",
        1 => "1",
        2 => "2",
        3 => "3",
        4 => "4",
        5 => "5",
        6 => "6",
        7 => "7",
        8 => "8",
        9 => "9",
        10 => "a",
        11 => "b",
        12 => "c",
        13 => "d",
        14 => "e",
        _ => "f",
    };
    proof {
        reveal_strlit("0");
        reveal_strlit("1");
        reveal_strlit("2");
        reveal_strlit("3");
        reveal_strlit("4");
        reveal_strlit("5");
        reveal_strlit("6");
        reveal_strlit("7");
        reveal_strlit("8");
        reveal_strlit("9");
        reveal_strlit("a");
        reveal_strlit("b");
        reveal_strlit("c");
        reveal_strlit("d");
        reveal_strlit("e");
        reveal_strlit("f");
        assert(r@ =~= seq![hex_digit(d as nat)]);
    }
    r
}

/// Escapes a string for inclusion inside a JSON string literal.
pub fn json_escape(s: &str) -> (r: String)
    ensures
        r@ == escaped(s@),
{
    let len = s.unicode_len();
    let mut r = String::new();
    let mut i: usize = 0;
    while i < len
        invariant
            len == s@.len(),
            i <= len,
            r@ == escaped(s@.subrange(0, i as int)),
        decreases len - i,
    {
        let c = s.get_char(i);
        if c == '"' {
            r.append("\\\"");
            proof {
                reveal_strlit("\\\"");
                assert("\\\""@ =~= escaped_char(c));
            }
        } else if c == '\\' {
            r.append("\\\\");
            proof {
                reveal_strlit("\\\\");
                assert("\\\\"@ =~= escaped_char(c));
            }
        } else if (c as u32) < 32 {
            r.append("\\u00");
            r.append(hex_digit_str(c as u32 / 16));
            r.append(hex_digit_str(c as u32 % 16));
            proof {
                reveal_strlit("\\u00");
                assert("\\u00"@ + seq![hex_digit((c as u32 / 16) as nat)] + seq![hex_digit(
                    (c as u32 % 16) as nat,
                )] =~= escaped_char(c));
            }
        } else {
            let piece = s.substring_char(i, i + 1);
            r.append(piece);
            proof {
                assert(piece@ =~= seq![c]);
            }
        }
        proof {
            assert(s@.subrange(0, i + 1 as int) =~= s@.subrange(0, i as int).push(s@[i as int]));
            lemma_escaped_snoc(s@.subrange(0, i as int), s@[i as int]);
            assert(r@ =~= escaped(s@.subrange(0, i + 1 as int)));
        }
        i = i + 1;
    }
    proof {
        assert(s@.subrange(0, len as int) =~= s@);
    }
    r
}

/// The JSON body of the creation request: the repository name and the
/// visibility flag, and nothing else.
pub open spec fn request_body_spec(name: Seq<char>, private: bool) -> Seq<char> {
    "{\"name\":\""@ + escaped(name) + "\",\"private\":"@ + (if private {
        "true"@
    } else {
        "false"@
    }) + "}"@
}

/// Builds the creation request's JSON body.
pub fn request_body(name: &str, private: bool) -> (r: String)
    ensures
        r@ == request_body_spec(name@, private),
{
    let mut r = String::from_str("{\"name\":\"");
    let escaped_name = json_escape(name);
    r.append(escaped_name.as_str());
    r.append("\",\"private\":");
    if private {
        r.append("true");
    } else {
        r.append("false");
    }
    r.append("}");
    proof {
        assert(r@ =~= request_body_spec(name@, private));
    }
    r
}

} // verus!
