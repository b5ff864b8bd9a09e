//! The command-line option contract: flags with their defaults, a repeatable
//! header flag, an optional body source, and one required positional URI.
//!
//! `from_iter_safe` parses an argument list (the first entry being the
//! program name) into [`Options`], failing when a flag misses its value,
//! when a flag is unknown, when more than one positional argument is given,
//! or when the URI is absent.

use vstd::prelude::*;
use vstd::string::*;

verus! {

/// Everything one invocation was asked to do.
#[derive(Debug, PartialEq, Eq)]
pub struct Options {
    /// Signing region name; defaults to `us-east-1`.
    pub region: String,
    /// Signing service name; defaults to `execute-api`.
    pub service: String,
    /// HTTP method; defaults to `GET`.
    pub method: String,
    /// Echo status line and headers before the body; off by default.
    pub include_headers: bool,
    /// Raw `key:value` header tokens, in the order given.
    pub headers: Vec<String>,
    /// The body source specifier, when one was supplied.
    pub data: Option<String>,
    /// The target endpoint URI.
    pub uri: String,
}

/// Why an argument list was rejected.
#[derive(Clone, Copy, Debug, PartialEq, Eq, Structural)]
pub enum UsageError {
    /// No positional URI was given.
    MissingUri,
    /// A flag that takes a value stood last, with no value after it.
    MissingValue,
    /// An argument looked like a flag but is not one of the known flags.
    UnknownFlag,
    /// A second positional argument was given.
    UnexpectedArgument,
}

impl UsageError {
    /// The single descriptive line to write to standard error.
    pub fn message(&self) -> (r: &str)
        ensures
            self is MissingUri ==> r@ == "required positional argument is missing: uri"@,
            self is MissingValue ==> r@ == "a flag is missing its value"@,
            self is UnknownFlag ==> r@ == "unknown flag"@,
            self is UnexpectedArgument ==> r@ == "unexpected extra positional argument"@,
    {
        match self {
            UsageError::MissingUri => "required positional argument is missing: uri",
            UsageError::MissingValue => "a flag is missing its value",
            UsageError::UnknownFlag => "unknown flag",
            UsageError::UnexpectedArgument => "unexpected extra positional argument",
        }
    }
}

/// The options gathered while walking the argument list; the URI stays
/// absent until a positional argument supplies it.
pub struct ArgState {
    pub region: Seq<char>,
    pub service: Seq<char>,
    pub method: Seq<char>,
    pub include_headers: bool,
    pub headers: Seq<Seq<char>>,
    pub data: Option<Seq<char>>,
    pub uri: Option<Seq<char>>,
}

/// The state before any argument is read: every flag at its default and no
/// URI yet.
pub open spec fn default_state() -> ArgState {
    ArgState {
        region: "us-east-1"@,
        service: "execute-api"@,
        method: "GET"@,
        include_headers: false,
        headers: Seq::empty(),
        data: None,
        uri: None,
    }
}

/// The view of an optional owned string.
pub open spec fn opt_str_view(d: Option<String>) -> Option<Seq<char>> {
    match d {
        Some(s) => Some(s@),
        None => None,
    }
}

/// The state an [`Options`] value stands for.
pub open spec fn options_state(o: Options) -> ArgState {
    ArgState {
        region: o.region@,
        service: o.service@,
        method: o.method@,
        include_headers: o.include_headers,
        headers: crate::headers::token_views(o.headers@),
        data: opt_str_view(o.data),
        uri: Some(o.uri@),
    }
}

/// Walks the argument list from position `i` in state `st`: a known flag
/// consumes its value (or fails when none follows), `-i` flips header
/// echoing, anything else beginning with `-` is an unknown flag, the first
/// bare argument becomes the URI and a second one is rejected; at the end
/// the URI must have been supplied.
pub open spec fn parse_args_from(args: Seq<Seq<char>>, i: int, st: ArgState) -> Result<
    ArgState,
    UsageError,
>
    decreases args.len() - i,
{
    if i >= args.len() {
        if st.uri is Some {
            Ok(st)
        } else {
            Err(UsageError::MissingUri)
        }
    } else {
        let a = args[i];
        if a == "-r"@ || a == "--region"@ {
            if i + 1 < args.len() {
                parse_args_from(args, i + 2, ArgState { region: args[i + 1], ..st })
            } else {
                Err(UsageError::MissingValue)
            }
        } else if a == "-s"@ || a == "--service"@ {
            if i + 1 < args.len() {
                parse_args_from(args, i + 2, ArgState { service: args[i + 1], ..st })
            } else {
                Err(UsageError::MissingValue)
            }
        } else if a == "-X"@ || a == "--request"@ {
            if i + 1 < args.len() {
                parse_args_from(args, i + 2, ArgState { method: args[i + 1], ..st })
            } else {
                Err(UsageError::MissingValue)
            }
        } else if a == "-H"@ || a == "--header"@ {
            if i + 1 < args.len() {
                parse_args_from(args, i + 2, ArgState { headers: st.headers.push(args[i + 1]), ..st })
            } else {
                Err(UsageError::MissingValue)
            }
        } else if a == "-d"@ || a == "--data"@ {
            if i + 1 < args.len() {
                parse_args_from(args, i + 2, ArgState { data: Some(args[i + 1]), ..st })
            } else {
                Err(UsageError::MissingValue)
            }
        } else if a == "-i"@ || a == "--include"@ {
            parse_args_from(args, i + 1, ArgState { include_headers: true, ..st })
        } else if a.len() > 1 && a[0] == '-' {
            Err(UsageError::UnknownFlag)
        } else {
            if st.uri is None {
                parse_args_from(args, i + 1, ArgState { uri: Some(a), ..st })
            } else {
                Err(UsageError::UnexpectedArgument)
            }
        }
    }
}

/// What a whole argument list parses to; the entry at position zero is the
/// program name and is skipped.
pub open spec fn parse_args_spec(args: Seq<Seq<char>>) -> Result<ArgState, UsageError> {
    parse_args_from(args, 1, default_state())
}

/// Law: an invocation with nothing but a positional URI (any argument that
/// does not look like a flag) parses successfully and uses the defaults:
/// region `us-east-1`, service `execute-api`, method `GET`, no header echo,
/// no headers and no body source, with that argument as the URI.
pub proof fn lemma_lone_uri_uses_defaults(args: Seq<Seq<char>>)
    requires
        args.len() == 2,
        !(args[1].len() > 1 && args[1][0] == '-'),
    ensures
        parse_args_spec(args) == Ok::<ArgState, UsageError>(
            ArgState { uri: Some(args[1]), ..default_state() },
        ),
{
    reveal_strlit("-r");
    reveal_strlit("--region");
    reveal_strlit("-s");
    reveal_strlit("--service");
    reveal_strlit("-X");
    reveal_strlit("--request");
    reveal_strlit("-H");
    reveal_strlit("--header");
    reveal_strlit("-d");
    reveal_strlit("--data");
    reveal_strlit("-i");
    reveal_strlit("--include");
    let a = args[1];
    assert(a != "-r"@ && a != "--region"@ && a != "-s"@ && a != "--service"@ && a != "-X"@ && a
        != "--request"@ && a != "-H"@ && a != "--header"@ && a != "-d"@ && a != "--data"@ && a
        != "-i"@ && a != "--include"@);
    let taken = ArgState { uri: Some(a), ..default_state() };
    assert(parse_args_from(args, 1, default_state()) == parse_args_from(args, 2, taken));
    assert(parse_args_from(args, 2, taken) == Ok::<ArgState, UsageError>(taken));
}

fn str_eq(a: &str, b: &str) -> (r: bool)
    ensures
        r == (a@ == b@),
{
    let n = a.unicode_len();
    let m = b.unicode_len();
    if n != m {
        return false;
    }
    let mut i: usize = 0;
    while i < n
        invariant
            0 <= i <= n,
            n == a@.len(),
            n == b@.len(),
            forall|j: int| 0 <= j < i ==> a@[j] == b@[j],
        decreases n - i,
    {
        if a.get_char(i) != b.get_char(i) {
            return false;
        }
        i = i + 1;
    }
    proof {
        assert(a@ =~= b@);
    }
    true
}

impl Options {
    /// Parses an argument list, the program name first. Fails exactly when
    /// the list breaks the option contract; in particular the invocation
    /// fails when no positional URI is given.
    pub fn from_iter_safe(args: &Vec<String>) -> (r: Result<Options, UsageError>)
        ensures
            r matches Ok(o) ==> parse_args_spec(crate::headers::token_views(args@)) == Ok::<
                ArgState,
                UsageError,
            >(options_state(o)),
            r matches Err(e) ==> parse_args_spec(crate::headers::token_views(args@)) == Err::<
                ArgState,
                UsageError,
            >(e),
    {
        let ghost av = crate::headers::token_views(args@);
        let mut region: String = "us-east-1".to_owned();
        let mut service: String = "execute-api".to_owned();
        let mut method: String = "GET".to_owned();
        let mut include_headers: bool = false;
        let mut headers: Vec<String> = Vec::new();
        let mut data: Option<String> = None;
        let mut uri: Option<String> = None;
        let n = args.len();
        let mut i: usize = 1;
        proof {
            assert(crate::headers::token_views(headers@) =~= Seq::<Seq<char>>::empty());
            assert(ArgState {
                region: region@,
                service: service@,
                method: method@,
                include_headers,
                headers: crate::headers::token_views(headers@),
                data: opt_str_view(data),
                uri: opt_str_view(uri),
            } == default_state());
        }
        while i < n
            invariant
                1 <= i,
                n == args@.len(),
                av == crate::headers::token_views(args@),
                av.len() == n,
                parse_args_from(av, 1, default_state()) == parse_args_from(
                    av,
                    i as int,
                    ArgState {
                        region: region@,
                        service: service@,
                        method: method@,
                        include_headers,
                        headers: crate::headers::token_views(headers@),
                        data: opt_str_view(data),
                        uri: opt_str_view(uri),
                    },
                ),
            decreases n - i,
        {
            let ghost st = ArgState {
                region: region@,
                service: service@,
                method: method@,
                include_headers,
                headers: crate::headers::token_views(headers@),
                data: opt_str_view(data),
                uri: opt_str_view(uri),
            };
            proof {
                assert(av[i as int] == args@[i as int]@);
            }
            let a = args[i].as_str();
            if str_eq(a, "-r") || str_eq(a, "--region") {
                if i + 1 < n {
                    proof {
                        assert(av[i + 1] == args@[i + 1]@);
                    }
                    region = args[i + 1].clone();
                    proof {
                        assert(parse_args_from(av, i as int, st) == parse_args_from(
                            av,
                            i + 2,
                            ArgState { region: av[i + 1], ..st },
                        ));
                    }
                    i = i + 2;
                } else {
                    proof {
                        assert(parse_args_from(av, i as int, st) == Err::<ArgState, UsageError>(
                            UsageError::MissingValue,
                        ));
                    }
                    return Err(UsageError::MissingValue);
                }
            } else if str_eq(a, "-s") || str_eq(a, "--service") {
                if i + 1 < n {
                    proof {
                        assert(av[i + 1] == args@[i + 1]@);
                    }
                    service = args[i + 1].clone();
                    proof {
                        assert(parse_args_from(av, i as int, st) == parse_args_from(
                            av,
                            i + 2,
                            ArgState { service: av[i + 1], ..st },
                        ));
                    }
                    i = i + 2;
                } else {
                    return Err(UsageError::MissingValue);
                }
            } else if str_eq(a, "-X") || str_eq(a, "--request") {
                if i + 1 < n {
                    proof {
                        assert(av[i + 1] == args@[i + 1]@);
                    }
                    method = args[i + 1].clone();
                    proof {
                        assert(parse_args_from(av, i as int, st) == parse_args_from(
                            av,
                            i + 2,
                            ArgState { method: av[i + 1], ..st },
                        ));
                    }
                    i = i + 2;
                } else {
                    return Err(UsageError::MissingValue);
                }
            } else if str_eq(a, "-H") || str_eq(a, "--header") {
                if i + 1 < n {
                    proof {
                        assert(av[i + 1] == args@[i + 1]@);
                    }
                    headers.push(args[i + 1].clone());
                    proof {
                        assert(crate::headers::token_views(headers@) =~= st.headers.push(
                            av[i + 1],
                        ));
                        assert(parse_args_from(av, i as int, st) == parse_args_from(
                            av,
                            i + 2,
                            ArgState { headers: st.headers.push(av[i + 1]), ..st },
                        ));
                    }
                    i = i + 2;
                } else {
                    return Err(UsageError::MissingValue);
                }
            } else if str_eq(a, "-d") || str_eq(a, "--data") {
                if i + 1 < n {
                    proof {
                        assert(av[i + 1] == args@[i + 1]@);
                    }
                    data = Some(args[i + 1].clone());
                    proof {
                        assert(parse_args_from(av, i as int, st) == parse_args_from(
                            av,
                            i + 2,
                            ArgState { data: Some(av[i + 1]), ..st },
                        ));
                    }
                    i = i + 2;
                } else {
                    return Err(UsageError::MissingValue);
                }
            } else if str_eq(a, "-i") || str_eq(a, "--include") {
                include_headers = true;
                proof {
                    assert(parse_args_from(av, i as int, st) == parse_args_from(
                        av,
                        i + 1,
                        ArgState { include_headers: true, ..st },
                    ));
                }
                i = i + 1;
            } else {
                let alen = a.unicode_len();
                if alen > 1 && a.get_char(0) == '-' {
                    proof {
                        assert(parse_args_from(av, i as int, st) == Err::<ArgState, UsageError>(
                            UsageError::UnknownFlag,
                        ));
                    }
                    return Err(UsageError::UnknownFlag);
                }
                if uri.is_none() {
                    uri = Some(args[i].clone());
                    proof {
                        assert(parse_args_from(av, i as int, st) == parse_args_from(
                            av,
                            i + 1,
                            ArgState { uri: Some(av[i as int]), ..st },
                        ));
                    }
                    i = i + 1;
                } else {
                    proof {
                        assert(parse_args_from(av, i as int, st) == Err::<ArgState, UsageError>(
                            UsageError::UnexpectedArgument,
                        ));
                    }
                    return Err(UsageError::UnexpectedArgument);
                }
            }
        }
        match uri {
            Some(u) => {
                let o = Options { region, service, method, include_headers, headers, data, uri: u };
                proof {
                    assert(parse_args_spec(av) == Ok::<ArgState, UsageError>(options_state(o)));
                }
                Ok(o)
            },
            None => {
                proof {
                    assert(parse_args_spec(av) == Err::<ArgState, UsageError>(
                        UsageError::MissingUri,
                    ));
                }
                Err(UsageError::MissingUri)
            },
        }
    }
}

} // verus!
