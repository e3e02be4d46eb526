use vstd::prelude::*;
use vstd::string::*;

use crate::error::AppError;
use crate::strutil::{
    chars_eq_str, chars_of, chars_start_with_str, lower_chars, spec_lower, spec_starts_with,
    spec_trim, string_of_chars, trim_chars,
};

verus! {

/// A mouse button a binding can watch for.
#[derive(Clone, Copy, Debug, PartialEq, Eq, Structural)]
pub enum MouseButton {
    Left,
    Right,
    Middle,
    Back,
    Forward,
}

/// A parsed mouse accelerator: the exact modifier chord and the one button.
#[derive(Clone, Copy, Debug, PartialEq, Eq, Structural)]
pub struct MouseBinding {
    pub ctrl: bool,
    pub alt: bool,
    pub shift: bool,
    pub meta: bool,
    pub button: MouseButton,
}

/// The views of a sequence of character vectors.
pub open spec fn views_of(ts: Seq<Vec<char>>) -> Seq<Seq<char>> {
    ts.map_values(|t: Vec<char>| t@)
}

/// The accelerator split at every `+`, separators removed, empty pieces
/// kept: splitting `"a++b"` gives three pieces.
pub open spec fn spec_split_plus(s: Seq<char>) -> Seq<Seq<char>>
    decreases s.len(),
{
    if s.len() == 0 {
        seq![Seq::<char>::empty()]
    } else if s[0] == '+' {
        seq![Seq::<char>::empty()] + spec_split_plus(s.drop_first())
    } else {
        let rest = spec_split_plus(s.drop_first());
        seq![seq![s[0]] + rest[0]] + rest.drop_first()
    }
}

/// A split always yields at least one piece.
proof fn lemma_split_plus_nonempty(s: Seq<char>)
    ensures
        spec_split_plus(s).len() >= 1,
    decreases s.len(),
{
    if s.len() != 0 {
        lemma_split_plus_nonempty(s.drop_first());
    }
}

/// The pieces trimmed, empty pieces dropped: the tokens of an accelerator.
pub open spec fn spec_clean_tokens(ts: Seq<Seq<char>>) -> Seq<Seq<char>>
    decreases ts.len(),
{
    if ts.len() == 0 {
        Seq::<Seq<char>>::empty()
    } else {
        let h = spec_trim(ts[0]);
        (if h.len() == 0 {
            Seq::<Seq<char>>::empty()
        } else {
            seq![h]
        }) + spec_clean_tokens(ts.drop_first())
    }
}

/// The tokens of an accelerator: split at `+`, trimmed, empties dropped.
pub open spec fn spec_tokens(s: Seq<char>) -> Seq<Seq<char>> {
    spec_clean_tokens(spec_split_plus(s))
}

/// Splits the accelerator's characters at every `+`.
fn split_plus(v: &Vec<char>) -> (r: Vec<Vec<char>>)
    ensures
        views_of(r@) == spec_split_plus(v@),
{
    let mut out: Vec<Vec<char>> = Vec::new();
    let mut cur: Vec<char> = Vec::new();
    let n = v.len();
    proof {
        lemma_split_plus_nonempty(v@);
        assert(v@.skip(0) =~= v@);
        assert(views_of(out@) =~= Seq::<Seq<char>>::empty());
        assert(views_of(out@) + seq![cur@ + spec_split_plus(v@.skip(0))[0]] + spec_split_plus(
            v@.skip(0),
        ).drop_first() =~~= spec_split_plus(v@));
    }
    let mut i: usize = 0;
    while i < n
        invariant
            i <= n,
            n == v@.len(),
            spec_split_plus(v@) == views_of(out@) + seq![
                cur@ + spec_split_plus(v@.skip(i as int))[0],
            ] + spec_split_plus(v@.skip(i as int)).drop_first(),
        decreases n - i,
    {
        let ghost rest = spec_split_plus(v@.skip(i + 1));
        let ghost prev_out = views_of(out@);
        let ghost prev_cur = cur@;
        proof {
            lemma_split_plus_nonempty(v@.skip(i + 1));
            assert(v@.skip(i as int)[0] == v@[i as int]);
            assert(v@.skip(i as int).drop_first() =~= v@.skip(i + 1));
        }
        if v[i] == '+' {
            let done = cur;
            cur = Vec::new();
            out.push(done);
            proof {
                assert(spec_split_plus(v@.skip(i as int)) == seq![Seq::<char>::empty()] + rest);
                assert((seq![Seq::<char>::empty()] + rest)[0] =~= Seq::<char>::empty());
                assert((seq![Seq::<char>::empty()] + rest).drop_first() =~= rest);
                assert(prev_cur + Seq::<char>::empty() =~= prev_cur);
                assert(views_of(out@) =~= prev_out.push(prev_cur));
                assert(rest =~= seq![rest[0]] + rest.drop_first());
                assert(cur@ + rest[0] =~= rest[0]);
                assert(prev_out + seq![prev_cur + spec_split_plus(v@.skip(i as int))[0]]
                    + spec_split_plus(v@.skip(i as int)).drop_first() =~~= views_of(out@) + seq![
                    cur@ + rest[0],
                ] + rest.drop_first());
            }
        } else {
            cur.push(v[i]);
            proof {
                assert(spec_split_plus(v@.skip(i as int)) == seq![seq![v@[i as int]] + rest[0]]
                    + rest.drop_first());
                assert((seq![seq![v@[i as int]] + rest[0]] + rest.drop_first())[0] =~= seq![
                    v@[i as int],
                ] + rest[0]);
                assert((seq![seq![v@[i as int]] + rest[0]] + rest.drop_first()).drop_first()
                    =~= rest.drop_first());
                assert(cur@ =~= prev_cur.push(v@[i as int]));
                assert(prev_cur + (seq![v@[i as int]] + rest[0]) =~= cur@ + rest[0]);
                assert(prev_out + seq![prev_cur + spec_split_plus(v@.skip(i as int))[0]]
                    + spec_split_plus(v@.skip(i as int)).drop_first() =~~= views_of(out@) + seq![
                    cur@ + rest[0],
                ] + rest.drop_first());
            }
        }
        i = i + 1;
    }
    let ghost prev_out = views_of(out@);
    let ghost prev_cur = cur@;
    proof {
        assert(v@.skip(n as int) =~= Seq::<char>::empty());
        assert(spec_split_plus(Seq::<char>::empty()) == seq![Seq::<char>::empty()]);
        assert(seq![Seq::<char>::empty()][0] =~= Seq::<char>::empty());
        assert(seq![Seq::<char>::empty()].drop_first() =~= Seq::<Seq<char>>::empty());
        assert(prev_cur + Seq::<char>::empty() =~= prev_cur);
    }
    out.push(cur);
    proof {
        assert(views_of(out@) =~= prev_out.push(prev_cur));
        assert(views_of(out@) =~~= spec_split_plus(v@));
    }
    out
}

/// Trims every piece and drops the empty ones.
fn clean_tokens(pieces: Vec<Vec<char>>) -> (r: Vec<Vec<char>>)
    ensures
        views_of(r@) == spec_clean_tokens(views_of(pieces@)),
{
    let ghost all = views_of(pieces@);
    let mut out: Vec<Vec<char>> = Vec::new();
    let n = pieces.len();
    proof {
        assert(all.skip(0) =~= all);
        assert(views_of(out@) =~= Seq::<Seq<char>>::empty());
        assert(views_of(out@) + spec_clean_tokens(all.skip(0)) =~~= spec_clean_tokens(all));
    }
    let mut i: usize = 0;
    while i < n
        invariant
            i <= n,
            n == pieces@.len(),
            all == views_of(pieces@),
            spec_clean_tokens(all) == views_of(out@) + spec_clean_tokens(all.skip(i as int)),
        decreases n - i,
    {
        let ghost prev_out = views_of(out@);
        proof {
            assert(all.skip(i as int)[0] == all[i as int]);
            assert(all[i as int] == pieces@[i as int]@);
            assert(all.skip(i as int).drop_first() =~= all.skip(i + 1));
        }
        let t = trim_chars(&pieces[i]);
        if t.len() > 0 {
            out.push(t);
            proof {
                assert(views_of(out@) =~= prev_out.push(t@));
                assert(prev_out + (seq![t@] + spec_clean_tokens(all.skip(i + 1))) =~~= views_of(
                    out@,
                ) + spec_clean_tokens(all.skip(i + 1)));
            }
        } else {
            proof {
                assert(Seq::<Seq<char>>::empty() + spec_clean_tokens(all.skip(i + 1))
                    =~= spec_clean_tokens(all.skip(i + 1)));
            }
        }
        i = i + 1;
    }
    proof {
        assert(all.skip(n as int) =~= Seq::<Seq<char>>::empty());
        assert(views_of(out@) + Seq::<Seq<char>>::empty() =~= views_of(out@));
    }
    out
}

/// The tokens of an accelerator, as a run-time value.
fn tokens_of(v: &Vec<char>) -> (r: Vec<Vec<char>>)
    ensures
        views_of(r@) == spec_tokens(v@),
{
    clean_tokens(split_plus(v))
}

/// Whether one token, lowercased, begins with `mouse`.
pub open spec fn spec_is_mouse_token(t: Seq<char>) -> bool {
    spec_starts_with(spec_lower(t), "mouse"@)
}

/// Whether the accelerator has any token that begins with `mouse` (in any
/// case): such an accelerator is routed to the mouse hook rather than to
/// the keyboard shortcut registry.
pub open spec fn spec_is_mouse_accelerator(s: Seq<char>) -> bool {
    exists|i: int|
        0 <= i < spec_tokens(s).len() && #[trigger] spec_is_mouse_token(spec_tokens(s)[i])
}

/// Decides whether the accelerator names a mouse binding.
pub fn is_mouse_accelerator(accelerator: &str) -> (r: bool)
    ensures
        r == spec_is_mouse_accelerator(accelerator@),
{
    let chars = chars_of(accelerator);
    let tokens = tokens_of(&chars);
    let ghost all = spec_tokens(accelerator@);
    let n = tokens.len();
    let mut i: usize = 0;
    while i < n
        invariant
            i <= n,
            n == tokens@.len(),
            views_of(tokens@) == all,
            all == spec_tokens(accelerator@),
            forall|j: int| 0 <= j < i ==> !spec_is_mouse_token(all[j]),
        decreases n - i,
    {
        proof {
            assert(all[i as int] == tokens@[i as int]@);
        }
        let lower = lower_chars(&tokens[i]);
        if chars_start_with_str(&lower, "mouse") {
            proof {
                assert(spec_is_mouse_token(all[i as int]));
            }
            return true;
        }
        i = i + 1;
    }
    false
}

/// What one lowercased token means.
#[derive(Clone, Copy, Debug, PartialEq, Eq, Structural)]
pub enum TokenClass {
    Ctrl,
    Alt,
    Shift,
    Meta,
    Button(MouseButton),
    UnknownMouse,
    Unknown,
}

/// Classification of one token after lowercasing: the recognized modifier
/// and button names, a `mouse`-prefixed name that is no known button, or an
/// unknown token.
pub open spec fn spec_classify(lt: Seq<char>) -> TokenClass {
    if lt == "ctrl"@ || lt == "control"@ {
        TokenClass::Ctrl
    } else if lt == "alt"@ {
        TokenClass::Alt
    } else if lt == "shift"@ {
        TokenClass::Shift
    } else if lt == "super"@ || lt == "win"@ || lt == "meta"@ {
        TokenClass::Meta
    } else if lt == "mouseleft"@ {
        TokenClass::Button(MouseButton::Left)
    } else if lt == "mouseright"@ {
        TokenClass::Button(MouseButton::Right)
    } else if lt == "mousemiddle"@ {
        TokenClass::Button(MouseButton::Middle)
    } else if lt == "mouseback"@ {
        TokenClass::Button(MouseButton::Back)
    } else if lt == "mouseforward"@ {
        TokenClass::Button(MouseButton::Forward)
    } else if spec_starts_with(lt, "mouse"@) {
        TokenClass::UnknownMouse
    } else {
        TokenClass::Unknown
    }
}

/// Classifies one lowercased token.
fn classify_token(lt: &Vec<char>) -> (c: TokenClass)
    ensures
        c == spec_classify(lt@),
{
    if chars_eq_str(lt, "ctrl") || chars_eq_str(lt, "control") {
        TokenClass::Ctrl
    } else if chars_eq_str(lt, "alt") {
        TokenClass::Alt
    } else if chars_eq_str(lt, "shift") {
        TokenClass::Shift
    } else if chars_eq_str(lt, "super") || chars_eq_str(lt, "win") || chars_eq_str(lt, "meta") {
        TokenClass::Meta
    } else if chars_eq_str(lt, "mouseleft") {
        TokenClass::Button(MouseButton::Left)
    } else if chars_eq_str(lt, "mouseright") {
        TokenClass::Button(MouseButton::Right)
    } else if chars_eq_str(lt, "mousemiddle") {
        TokenClass::Button(MouseButton::Middle)
    } else if chars_eq_str(lt, "mouseback") {
        TokenClass::Button(MouseButton::Back)
    } else if chars_eq_str(lt, "mouseforward") {
        TokenClass::Button(MouseButton::Forward)
    } else if chars_start_with_str(lt, "mouse") {
        TokenClass::UnknownMouse
    } else {
        TokenClass::Unknown
    }
}

/// The modifier flags and the optional button gathered so far.
pub ghost struct BindingAcc {
    pub ctrl: bool,
    pub alt: bool,
    pub shift: bool,
    pub meta: bool,
    pub button: Option<MouseButton>,
}

/// The accumulator every parse starts from: no modifier, no button.
pub open spec fn spec_empty_acc() -> BindingAcc {
    BindingAcc { ctrl: false, alt: false, shift: false, meta: false, button: None }
}

/// Folds the tokens into the accumulator, left to right. The first
/// offending token stops the parse: an unknown token, or a second button
/// token. The error carries that token and its classification.
pub open spec fn spec_apply_tokens(toks: Seq<Seq<char>>, acc: BindingAcc) -> Result<
    BindingAcc,
    (Seq<char>, TokenClass),
>
    decreases toks.len(),
{
    if toks.len() == 0 {
        Ok(acc)
    } else {
        let t = toks[0];
        match spec_classify(spec_lower(t)) {
            TokenClass::Ctrl => spec_apply_tokens(
                toks.drop_first(),
                BindingAcc { ctrl: true, ..acc },
            ),
            TokenClass::Alt => spec_apply_tokens(toks.drop_first(), BindingAcc { alt: true, ..acc }),
            TokenClass::Shift => spec_apply_tokens(
                toks.drop_first(),
                BindingAcc { shift: true, ..acc },
            ),
            TokenClass::Meta => spec_apply_tokens(
                toks.drop_first(),
                BindingAcc { meta: true, ..acc },
            ),
            TokenClass::Button(b) => if acc.button is Some {
                Err((t, TokenClass::Button(b)))
            } else {
                spec_apply_tokens(toks.drop_first(), BindingAcc { button: Some(b), ..acc })
            },
            TokenClass::UnknownMouse => Err((t, TokenClass::UnknownMouse)),
            TokenClass::Unknown => Err((t, TokenClass::Unknown)),
        }
    }
}

/// The error message for a token the parse stops on.
pub open spec fn spec_token_error_message(t: Seq<char>, class: TokenClass) -> Seq<char> {
    match class {
        TokenClass::Button(_) => "more than one mouse button token: "@ + t,
        TokenClass::UnknownMouse => "unsupported mouse button token: "@ + t,
        _ => "unsupported accelerator token: "@ + t,
    }
}

/// The whole contract of the accelerator parse, one case per outcome.
pub open spec fn spec_parse_mouse_binding(s: Seq<char>, r: Result<MouseBinding, AppError>) -> bool {
    match spec_apply_tokens(spec_tokens(s), spec_empty_acc()) {
        Err((t, class)) => r matches Err(AppError::Hotkey(m)) && m@ == spec_token_error_message(
            t,
            class,
        ),
        Ok(acc) => match acc.button {
            None => r matches Err(AppError::Hotkey(m)) && m@
                == "the accelerator is missing a mouse button token"@,
            Some(b) => r matches Ok(binding) && binding == (MouseBinding {
                ctrl: acc.ctrl,
                alt: acc.alt,
                shift: acc.shift,
                meta: acc.meta,
                button: b,
            }),
        },
    }
}

/// Builds the error for a token the parse stops on, naming the token.
fn token_error(raw: &Vec<char>, class: TokenClass) -> (e: AppError)
    ensures
        e matches AppError::Hotkey(m) && m@ == spec_token_error_message(raw@, class),
{
    let mut m = match class {
        TokenClass::Button(_) => String::from_str("more than one mouse button token: "),
        TokenClass::UnknownMouse => String::from_str("unsupported mouse button token: "),
        _ => String::from_str("unsupported accelerator token: "),
    };
    let tail = string_of_chars(raw);
    m.append(tail.as_str());
    AppError::Hotkey(m)
}

/// Parses a mouse accelerator: tokens split at `+` and trimmed, recognized
/// modifier tokens set their flags, and exactly one recognized `Mouse*`
/// button token is required. An unknown token or a second button token is
/// a `Hotkey` error naming that token; no button token at all is a
/// `Hotkey` error asking for one.
pub fn parse_mouse_binding(accelerator: &str) -> (r: Result<MouseBinding, AppError>)
    ensures
        spec_parse_mouse_binding(accelerator@, r),
{
    let chars = chars_of(accelerator);
    let tokens = tokens_of(&chars);
    let ghost all = spec_tokens(accelerator@);
    let mut ctrl: bool = false;
    let mut alt: bool = false;
    let mut shift: bool = false;
    let mut meta: bool = false;
    let mut button: Option<MouseButton> = None;
    let n = tokens.len();
    proof {
        assert(all.skip(0) =~= all);
    }
    let mut i: usize = 0;
    while i < n
        invariant
            i <= n,
            n == tokens@.len(),
            views_of(tokens@) == all,
            all == spec_tokens(accelerator@),
            spec_apply_tokens(all, spec_empty_acc()) == spec_apply_tokens(
                all.skip(i as int),
                BindingAcc { ctrl, alt, shift, meta, button },
            ),
        decreases n - i,
    {
        let ghost acc_now = BindingAcc { ctrl, alt, shift, meta, button };
        proof {
            assert(all.skip(i as int)[0] == all[i as int]);
            assert(all[i as int] == tokens@[i as int]@);
            assert(all.skip(i as int).drop_first() =~= all.skip(i + 1));
        }
        let lower = lower_chars(&tokens[i]);
        match classify_token(&lower) {
            TokenClass::Ctrl => {
                ctrl = true;
            },
            TokenClass::Alt => {
                alt = true;
            },
            TokenClass::Shift => {
                shift = true;
            },
            TokenClass::Meta => {
                meta = true;
            },
            TokenClass::Button(b) => {
                if button.is_some() {
                    proof {
                        assert(spec_apply_tokens(all.skip(i as int), acc_now) == Err::<
                            BindingAcc,
                            (Seq<char>, TokenClass),
                        >((all[i as int], TokenClass::Button(b))));
                    }
                    return Err(token_error(&tokens[i], TokenClass::Button(b)));
                }
                button = Some(b);
            },
            TokenClass::UnknownMouse => {
                proof {
                    assert(spec_apply_tokens(all.skip(i as int), acc_now) == Err::<
                        BindingAcc,
                        (Seq<char>, TokenClass),
                    >((all[i as int], TokenClass::UnknownMouse)));
                }
                return Err(token_error(&tokens[i], TokenClass::UnknownMouse));
            },
            TokenClass::Unknown => {
                proof {
                    assert(spec_apply_tokens(all.skip(i as int), acc_now) == Err::<
                        BindingAcc,
                        (Seq<char>, TokenClass),
                    >((all[i as int], TokenClass::Unknown)));
                }
                return Err(token_error(&tokens[i], TokenClass::Unknown));
            },
        }
        i = i + 1;
    }
    proof {
        assert(all.skip(n as int) =~= Seq::<Seq<char>>::empty());
    }
    match button {
        Some(b) => Ok(MouseBinding { ctrl, alt, shift, meta, button: b }),
        None => Err(
            AppError::Hotkey(String::from_str("the accelerator is missing a mouse button token")),
        ),
    }
}

} // verus!
