//! The key=value configuration text parser and the credential resolution
//! rule.
//!
//! A daemon configuration file is newline-separated `key=value` text with no
//! quoting or sections.  Each line is split at its first `=`; lines without
//! an `=` (blank lines, comments, malformed lines) are ignored.  When a key
//! occurs on several lines, the last occurrence wins.  Resolution reads
//! `rpcuser`, `rpcpassword` and `rpcport` out of the parsed map, with an
//! optional fallback text for `rpcport` alone.

use crate::error::Error;
use crate::text::all_digits;
use crate::text::digits_val;
use crate::text::find_char;
use crate::text::first_index;
use crate::text::is_u16_text;
use crate::text::lemma_first_index_from;
use crate::text::parse_u16;
use crate::text::str_eq;
use crate::text::u16_text_val;
use vstd::prelude::*;
use vstd::string::*;

verus! {

/// The pieces of `s` delimited by `c`, as `str::split` yields them: an empty
/// text gives one empty piece, and a trailing delimiter a trailing empty
/// piece.
pub open spec fn split_on(s: Seq<char>, c: char) -> Seq<Seq<char>>
    decreases s.len(),
{
    let i = first_index(s, c);
    if !(0 <= i < s.len()) {
        seq![s]
    } else {
        seq![s.take(i)] + split_on(s.skip(i + 1), c)
    }
}

/// The lines of a configuration text.
pub open spec fn config_lines(text: Seq<char>) -> Seq<Seq<char>> {
    split_on(text, '\n')
}

/// Whether a line carries a setting: it holds at least one `=`.
pub open spec fn line_has_eq(l: Seq<char>) -> bool {
    first_index(l, '=') < l.len()
}

/// The setting name on a line: everything before the first `=`.
pub open spec fn line_key(l: Seq<char>) -> Seq<char> {
    l.take(first_index(l, '='))
}

/// The raw value on a line: everything after the first `=`, later `=`
/// characters included.
pub open spec fn line_value(l: Seq<char>) -> Seq<char> {
    l.skip(first_index(l, '=') + 1)
}

/// The setting map a sequence of lines denotes.  A line without `=`
/// contributes nothing; among lines with the same key, the last one wins.
pub open spec fn map_of_lines(ls: Seq<Seq<char>>) -> Map<Seq<char>, Seq<char>>
    decreases ls.len(),
{
    if ls.len() == 0 {
        Map::empty()
    } else {
        let rest = map_of_lines(ls.skip(1));
        let l = ls[0];
        if line_has_eq(l) && !rest.contains_key(line_key(l)) {
            rest.insert(line_key(l), line_value(l))
        } else {
            rest
        }
    }
}

/// The setting map a configuration text denotes.
pub open spec fn config_map(text: Seq<char>) -> Map<Seq<char>, Seq<char>> {
    map_of_lines(config_lines(text))
}

/// A key is in the parsed map exactly when some line carries it with an `=`:
/// lines without an `=` are excluded from the map altogether.
pub proof fn lemma_map_keys(ls: Seq<Seq<char>>)
    ensures
        forall|k: Seq<char>|
            map_of_lines(ls).contains_key(k) <==> exists|i: int|
                0 <= i < ls.len() && line_has_eq(#[trigger] ls[i]) && line_key(ls[i]) == k,
    decreases ls.len(),
{
    if ls.len() > 0 {
        lemma_map_keys(ls.skip(1));
        let rest = map_of_lines(ls.skip(1));
        assert forall|k: Seq<char>| map_of_lines(ls).contains_key(k) implies exists|i: int|
            0 <= i < ls.len() && line_has_eq(#[trigger] ls[i]) && line_key(ls[i]) == k by {
            if rest.contains_key(k) {
                let i = choose|i: int|
                    0 <= i < ls.skip(1).len() && line_has_eq(#[trigger] ls.skip(1)[i])
                        && line_key(ls.skip(1)[i]) == k;
                assert(ls.skip(1)[i] == ls[i + 1]);
                assert(line_has_eq(ls[i + 1]) && line_key(ls[i + 1]) == k);
            } else {
                assert(line_has_eq(ls[0]) && line_key(ls[0]) == k);
            }
        }
        assert forall|k: Seq<char>|
            (exists|i: int|
                0 <= i < ls.len() && line_has_eq(#[trigger] ls[i]) && line_key(ls[i])
                    == k) implies map_of_lines(ls).contains_key(k) by {
            let i = choose|i: int|
                0 <= i < ls.len() && line_has_eq(#[trigger] ls[i]) && line_key(ls[i]) == k;
            if i == 0 {
                if !rest.contains_key(k) {
                    assert(map_of_lines(ls) == rest.insert(k, line_value(ls[0])));
                }
            } else {
                assert(ls.skip(1)[i - 1] == ls[i]);
                assert(rest.contains_key(k));
            }
        }
    }
}

/// When line `i` carries a key and no later line carries the same key, the
/// parsed map holds exactly that line's value for it: the last occurrence of
/// a duplicated key is the one retained.
pub proof fn lemma_last_occurrence_wins(ls: Seq<Seq<char>>, i: int)
    requires
        0 <= i < ls.len(),
        line_has_eq(ls[i]),
        forall|j: int|
            i < j < ls.len() && line_has_eq(#[trigger] ls[j]) ==> line_key(ls[j]) != line_key(
                ls[i],
            ),
    ensures
        map_of_lines(ls).contains_pair(line_key(ls[i]), line_value(ls[i])),
    decreases ls.len(),
{
    let k = line_key(ls[i]);
    let rest = map_of_lines(ls.skip(1));
    if i == 0 {
        lemma_map_keys(ls.skip(1));
        assert(!rest.contains_key(k)) by {
            if rest.contains_key(k) {
                let j = choose|j: int|
                    0 <= j < ls.skip(1).len() && line_has_eq(#[trigger] ls.skip(1)[j])
                        && line_key(ls.skip(1)[j]) == k;
                assert(ls.skip(1)[j] == ls[j + 1]);
                assert(line_has_eq(ls[j + 1]) && line_key(ls[j + 1]) == k);
            }
        }
        assert(map_of_lines(ls) == rest.insert(k, line_value(ls[0])));
    } else {
        assert forall|j: int|
            i - 1 < j < ls.skip(1).len() && line_has_eq(#[trigger] ls.skip(1)[j]) implies line_key(
            ls.skip(1)[j],
        ) != line_key(ls.skip(1)[i - 1]) by {
            assert(ls.skip(1)[j] == ls[j + 1]);
            assert(ls.skip(1)[i - 1] == ls[i]);
        }
        assert(ls.skip(1)[i - 1] == ls[i]);
        lemma_last_occurrence_wins(ls.skip(1), i - 1);
        assert(rest.contains_pair(k, line_value(ls[i])));
    }
}

/// A config text's parsed map has exactly the keys of its `=`-carrying
/// lines: every line without an `=` is excluded from the map altogether.
pub proof fn lemma_config_map_keys(text: Seq<char>)
    ensures
        forall|k: Seq<char>|
            config_map(text).contains_key(k) <==> exists|i: int|
                0 <= i < config_lines(text).len() && line_has_eq(
                    #[trigger] config_lines(text)[i],
                ) && line_key(config_lines(text)[i]) == k,
{
    lemma_map_keys(config_lines(text));
}

/// When line `i` of a config text carries a key that no later line carries,
/// the text's parsed map holds that line's value for it.
pub proof fn lemma_config_last_occurrence_wins(text: Seq<char>, i: int)
    requires
        0 <= i < config_lines(text).len(),
        line_has_eq(config_lines(text)[i]),
        forall|j: int|
            i < j < config_lines(text).len() && line_has_eq(
                #[trigger] config_lines(text)[j],
            ) ==> line_key(config_lines(text)[j]) != line_key(config_lines(text)[i]),
    ensures
        config_map(text).contains_pair(
            line_key(config_lines(text)[i]),
            line_value(config_lines(text)[i]),
        ),
{
    lemma_last_occurrence_wins(config_lines(text), i);
}

/// Look a key up on a single line.
fn lookup_line(line: &str, key: &str) -> (r: Option<String>)
    ensures
        line_has_eq(line@) && line_key(line@) == key@ ==> (r matches Some(v) && v@
            == line_value(line@)),
        !(line_has_eq(line@) && line_key(line@) == key@) ==> r is None,
{
    proof {
        lemma_first_index_from(line@, '=', 0);
    }
    match find_char(line, '=') {
        None => None,
        Some(i) => {
            let len: usize = line.unicode_len();
            let k = line.substring_char(0, i);
            proof {
                assert(k@ =~= line_key(line@));
            }
            if str_eq(k, key) {
                let v = line.substring_char(i + 1, len);
                proof {
                    assert(v@ =~= line_value(line@));
                }
                Some(String::from_str(v))
            } else {
                None
            }
        },
    }
}

/// Look a key up in a configuration text, yielding the value the parsed map
/// holds for it: the value after the first `=` on the last line that sets
/// the key.
pub fn lookup_config(contents: &str, key: &str) -> (r: Option<String>)
    ensures
        config_map(contents@).contains_key(key@) ==> (r matches Some(v) && v@ == config_map(
            contents@,
        )[key@]),
        !config_map(contents@).contains_key(key@) ==> r is None,
    decreases contents@.len(),
{
    proof {
        lemma_first_index_from(contents@, '\n', 0);
    }
    match find_char(contents, '\n') {
        None => {
            proof {
                assert(config_lines(contents@) =~= seq![contents@]);
                assert(config_lines(contents@).skip(1) =~= Seq::<Seq<char>>::empty());
                assert(map_of_lines(Seq::<Seq<char>>::empty()) == Map::<
                    Seq<char>,
                    Seq<char>,
                >::empty());
                assert(config_lines(contents@)[0] == contents@);
                assert(config_map(contents@) == if line_has_eq(contents@) {
                    Map::<Seq<char>, Seq<char>>::empty().insert(
                        line_key(contents@),
                        line_value(contents@),
                    )
                } else {
                    Map::<Seq<char>, Seq<char>>::empty()
                });
            }
            lookup_line(contents, key)
        },
        Some(i) => {
            let len: usize = contents.unicode_len();
            let head = contents.substring_char(0, i);
            let tail = contents.substring_char(i + 1, len);
            proof {
                assert(head@ =~= contents@.take(i as int));
                assert(tail@ =~= contents@.skip(i + 1));
                assert(config_lines(contents@) =~= seq![head@] + config_lines(tail@));
                assert((seq![head@] + config_lines(tail@)).skip(1) =~= config_lines(tail@));
                assert((seq![head@] + config_lines(tail@))[0] == head@);
            }
            proof {
                let ls = config_lines(contents@);
                assert(ls.skip(1) == config_lines(tail@));
                assert(ls[0] == head@);
                assert(ls.len() > 0);
                assert(config_map(contents@) == if line_has_eq(head@) && !map_of_lines(
                    config_lines(tail@),
                ).contains_key(line_key(head@)) {
                    map_of_lines(config_lines(tail@)).insert(line_key(head@), line_value(head@))
                } else {
                    map_of_lines(config_lines(tail@))
                });
            }
            let r2 = lookup_config(tail, key);
            match r2 {
                Some(v) => Some(v),
                None => lookup_line(head, key),
            }
        },
    }
}

/// The default `rpcport` text that a configuration file name enjoys: the
/// root chain's canonical main-network file name alone has one, since its
/// installer does not always write `rpcport`.
pub open spec fn chain_default_port(file_name: Seq<char>) -> Option<Seq<char>> {
    if file_name == "VRSC.conf"@ {
        Some("8232"@)
    } else {
        None
    }
}

/// The resolution outcome over a configuration text: `rpcuser` and
/// `rpcpassword` are mandatory; `rpcport` is read from the map when present,
/// from `default_port` when the map lacks it and a default is given, and is
/// otherwise a missing required setting.  The port text must denote an
/// unsigned 16-bit number.
pub open spec fn resolved_config(text: Seq<char>, default_port: Option<Seq<char>>) -> Result<
    (Seq<char>, Seq<char>, u16),
    Error,
> {
    let m = config_map(text);
    if !m.contains_key("rpcuser"@) {
        Err(Error::InvalidConfigFile)
    } else if !m.contains_key("rpcpassword"@) {
        Err(Error::InvalidConfigFile)
    } else if !m.contains_key("rpcport"@) && default_port is None {
        Err(Error::InvalidConfigFile)
    } else {
        let port_text = if m.contains_key("rpcport"@) {
            m["rpcport"@]
        } else {
            default_port->Some_0
        };
        if !is_u16_text(port_text) {
            Err(Error::PortParse)
        } else {
            Ok((m["rpcuser"@], m["rpcpassword"@], u16_text_val(port_text) as u16))
        }
    }
}

/// Resolve the connection settings out of a configuration text.
pub fn resolve_config(contents: &str, default_port: Option<&str>) -> (r: Result<
    (String, String, u16),
    Error,
>)
    ensures
        ({
            let s = resolved_config(
                contents@,
                match default_port {
                    Some(d) => Some(d@),
                    None => None,
                },
            );
            match r {
                Ok(c) => s matches Ok(t) && c.0@ == t.0 && c.1@ == t.1 && c.2 == t.2,
                Err(e) => s matches Err(t) && e == t,
            }
        }),
{
    let user = match lookup_config(contents, "rpcuser") {
        Some(u) => u,
        None => {
            return Err(Error::InvalidConfigFile);
        },
    };
    let pass = match lookup_config(contents, "rpcpassword") {
        Some(p) => p,
        None => {
            return Err(Error::InvalidConfigFile);
        },
    };
    let port_text = match lookup_config(contents, "rpcport") {
        Some(p) => p,
        None => {
            match default_port {
                Some(d) => String::from_str(d),
                None => {
                    return Err(Error::InvalidConfigFile);
                },
            }
        },
    };
    match parse_u16(port_text.as_str()) {
        Some(port) => Ok((user, pass, port)),
        None => Err(Error::PortParse),
    }
}

/// The root chain's canonical default port is used only when the map has no
/// `rpcport` entry; when one is present, its value is what resolution
/// yields, whatever default text is supplied.
pub proof fn lemma_explicit_port_wins(text: Seq<char>, default_port: Option<Seq<char>>)
    requires
        config_map(text).contains_key("rpcport"@),
    ensures
        resolved_config(text, default_port) == resolved_config(text, None),
{
}

/// With `rpcuser` and `rpcpassword` set and `rpcport` absent, resolution
/// with a well-formed default port text succeeds and yields that default.
pub proof fn lemma_default_port_used(text: Seq<char>, d: Seq<char>)
    requires
        config_map(text).contains_key("rpcuser"@),
        config_map(text).contains_key("rpcpassword"@),
        !config_map(text).contains_key("rpcport"@),
        is_u16_text(d),
    ensures
        resolved_config(text, Some(d)) == Ok::<_, Error>(
            (
                config_map(text)["rpcuser"@],
                config_map(text)["rpcpassword"@],
                u16_text_val(d) as u16,
            ),
        ),
{
}

/// For the root chain's canonical main-network file, a config text that
/// sets the credentials but no `rpcport` resolves successfully at the
/// canonical default port.
pub proof fn lemma_root_chain_default_port(text: Seq<char>)
    requires
        config_map(text).contains_key("rpcuser"@),
        config_map(text).contains_key("rpcpassword"@),
        !config_map(text).contains_key("rpcport"@),
    ensures
        resolved_config(text, chain_default_port("VRSC.conf"@)) matches Ok(t) && t.2 == 8232,
{
    let d = "8232"@;
    reveal_strlit("8232");
    assert(d.len() == 4);
    let d3 = d.drop_last();
    let d2 = d3.drop_last();
    let d1 = d2.drop_last();
    let d0 = d1.drop_last();
    assert(d[0] == '8' && d[1] == '2' && d[2] == '3' && d[3] == '2');
    assert(all_digits(d));
    assert(d0.len() == 0);
    assert(digits_val(d0) == 0);
    assert(d1.last() == '8' && digits_val(d1) == 8);
    assert(d2.last() == '2' && digits_val(d2) == 82);
    assert(d3.last() == '3' && digits_val(d3) == 823);
    assert(d.last() == '2' && digits_val(d) == 8232);
    assert(is_u16_text(d));
    assert(u16_text_val(d) == 8232);
    lemma_default_port_used(text, d);
}

/// Without a default port text, resolution fails with the invalid-config
/// error whenever any of the three required settings is absent.
pub proof fn lemma_missing_setting_rejected(text: Seq<char>)
    requires
        !config_map(text).contains_key("rpcuser"@) || !config_map(text).contains_key(
            "rpcpassword"@,
        ) || !config_map(text).contains_key("rpcport"@),
    ensures
        resolved_config(text, None) == Err::<(Seq<char>, Seq<char>, u16), _>(
            Error::InvalidConfigFile,
        ),
{
}

} // verus!
