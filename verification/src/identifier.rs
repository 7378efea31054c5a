use crate::presence::Mac;
use vstd::prelude::*;
use vstd::string::*;

verus! {

/// A character in upper case, where it is an ASCII letter; itself otherwise.
pub open spec fn upper(c: char) -> char {
    if 'a' <= c && c <= 'z' {
        ((c as u32) - 32) as char
    } else {
        c
    }
}

/// An identifier in its normal form: every ASCII letter in upper case,
/// every other character as it is. Two identifiers name the same device
/// exactly when their normal forms agree.
pub open spec fn normalized(id: Mac) -> Mac {
    id.map_values(|c: char| upper(c))
}

/// Each identifier of a list in its normal form, in order.
pub open spec fn normalized_all(ids: Seq<Mac>) -> Seq<Mac> {
    ids.map_values(|id: Mac| normalized(id))
}

/// Whether every identifier of a list stands in its normal form.
pub open spec fn all_normalized(ids: Seq<Mac>) -> bool {
    forall|i: int| 0 <= i < ids.len() ==> normalized(#[trigger] ids[i]) == ids[i]
}

/// The normal form of an identifier is its own normal form.
pub proof fn lemma_normalized_is_normal(id: Mac)
    ensures
        normalized(normalized(id)) == normalized(id),
{
    assert(normalized(normalized(id)) =~= normalized(id));
}

/// A list of normal forms stands in normal form.
pub proof fn lemma_normalized_all_is_normal(ids: Seq<Mac>)
    ensures
        all_normalized(normalized_all(ids)),
{
    assert forall|i: int| 0 <= i < normalized_all(ids).len() implies normalized(
        #[trigger] normalized_all(ids)[i],
    ) == normalized_all(ids)[i] by {
        lemma_normalized_is_normal(ids[i]);
    }
}

/// Among identifiers in normal form that differ as texts, no two name the
/// same device: none equals another but for the case of its letters.
pub proof fn lemma_normal_and_distinct(ids: Seq<Mac>)
    requires
        all_normalized(ids),
        ids.no_duplicates(),
    ensures
        forall|i: int, j: int|
            0 <= i < ids.len() && 0 <= j < ids.len() && i != j ==> normalized(#[trigger] ids[i])
                != normalized(#[trigger] ids[j]),
{
}

fn capital(c: char) -> (text: Option<&'static str>)
    ensures
        match text {
            Some(text) => text@ == seq![upper(c)],
            None => upper(c) == c,
        },
{
    proof {
        reveal_strlit("A");
        reveal_strlit("B");
        reveal_strlit("C");
        reveal_strlit("D");
        reveal_strlit("E");
        reveal_strlit("F");
        reveal_strlit("G");
        reveal_strlit("H");
        reveal_strlit("I");
        reveal_strlit("J");
        reveal_strlit("K");
        reveal_strlit("L");
        reveal_strlit("M");
        reveal_strlit("N");
        reveal_strlit("O");
        reveal_strlit("P");
        reveal_strlit("Q");
        reveal_strlit("R");
        reveal_strlit("S");
        reveal_strlit("T");
        reveal_strlit("U");
        reveal_strlit("V");
        reveal_strlit("W");
        reveal_strlit("X");
        reveal_strlit("Y");
        reveal_strlit("Z");
    }
    let text: Option<&'static str> = if c == 'a' {
        Some("A")
    } else if c == 'b' {
        Some("B")
    } else if c == 'c' {
        Some("C")
    } else if c == 'd' {
        Some("D")
    } else if c == 'e' {
        Some("E")
    } else if c == 'f' {
        Some("F")
    } else if c == 'g' {
        Some("G")
    } else if c == 'h' {
        Some("H")
    } else if c == 'i' {
        Some("I")
    } else if c == 'j' {
        Some("J")
    } else if c == 'k' {
        Some("K")
    } else if c == 'l' {
        Some("L")
    } else if c == 'm' {
        Some("M")
    } else if c == 'n' {
        Some("N")
    } else if c == 'o' {
        Some("O")
    } else if c == 'p' {
        Some("P")
    } else if c == 'q' {
        Some("Q")
    } else if c == 'r' {
        Some("R")
    } else if c == 's' {
        Some("S")
    } else if c == 't' {
        Some("T")
    } else if c == 'u' {
        Some("U")
    } else if c == 'v' {
        Some("V")
    } else if c == 'w' {
        Some("W")
    } else if c == 'x' {
        Some("X")
    } else if c == 'y' {
        Some("Y")
    } else if c == 'z' {
        Some("Z")
    } else {
        None
    };
    proof {
        if let Some(text) = text {
            assert(text@ =~= seq![upper(c)]);
        }
    }
    text
}

/// Writes an identifier in its normal form.
pub fn normalize(id: &str) -> (normal: String)
    ensures
        normal@ == normalized(id@),
{
    let length = id.unicode_len();
    let mut normal = String::new();
    let mut i: usize = 0;
    proof {
        assert(normalized(id@.take(0)) =~= Seq::<char>::empty());
    }
    while i < length
        invariant
            i <= length,
            length == id@.len(),
            normal@ == normalized(id@.take(i as int)),
        decreases length - i,
    {
        let ghost before = normal@;
        let c = id.get_char(i);
        match capital(c) {
            Some(text) => {
                normal.append(text);
            },
            None => {
                normal.append(id.substring_char(i, i + 1));
                assert(id@.subrange(i as int, i + 1) =~= seq![c]);
            },
        }
        assert(normal@ =~= normalized(id@.take(i + 1))) by {
            assert(normal@ =~= before.push(upper(c)));
        }
        i += 1;
    }
    proof {
        assert(id@.take(length as int) =~= id@);
    }
    normal
}

} // verus!
