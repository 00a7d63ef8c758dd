//! The table that names the router functions by their selectors.

use vstd::prelude::*;

verus! {

/// The number of characters of a selector: `0x` and eight hexadecimal digits.
pub const SELECTOR_LEN: usize = 10;

/// The name that a table gives to a function, or the mark that the table
/// does not know the selector.
#[derive(Debug, PartialEq, Eq)]
pub enum FunctionName {
    /// The selector is in the table, under this name.
    Known(String),
    /// The selector is not in the table.
    Unknown,
}

impl View for FunctionName {
    type V = Option<Seq<char>>;

    open spec fn view(&self) -> Option<Seq<char>> {
        match self {
            FunctionName::Known(name) => Some(name@),
            FunctionName::Unknown => None,
        }
    }
}

impl FunctionName {
    /// The name, or the words `unknown selector`.
    pub fn label(&self) -> (text: String)
        ensures
            text@ == match self@ {
                Some(name) => name,
                None => "unknown selector"@,
            },
    {
        match self {
            FunctionName::Known(name) => name.clone(),
            FunctionName::Unknown => "unknown selector".to_owned(),
        }
    }
}

/// The mapping that a list of entries stands for.  Where a selector occurs
/// more than once, the entry that was added last counts.
pub open spec fn mapping_of(entries: Seq<(Seq<char>, Seq<char>)>) -> Map<Seq<char>, Seq<char>>
    decreases entries.len(),
{
    if entries.len() == 0 {
        Map::empty()
    } else {
        mapping_of(entries.drop_last()).insert(entries.last().0, entries.last().1)
    }
}

/// The name that a mapping gives to a selector.
pub open spec fn name_in(table: Map<Seq<char>, Seq<char>>, selector: Seq<char>) -> Option<Seq<char>> {
    if table.contains_key(selector) {
        Some(table[selector])
    } else {
        None
    }
}

/// The selectors of the swap functions of the Uniswap V2 and V3 routers.
pub open spec fn standard_selectors() -> Map<Seq<char>, Seq<char>> {
    Map::<Seq<char>, Seq<char>>::empty()
        .insert("0x38ed1739"@, "swapExactTokensForTokens"@)
        .insert("0x8803dbee"@, "swapTokensForExactTokens"@)
        .insert("0x7ff36ab5"@, "swapExactETHForTokens"@)
        .insert("0x4a25d94a"@, "swapTokensForExactETH"@)
        .insert("0x18cbafe5"@, "swapExactTokensForETH"@)
        .insert("0xfb3bdb41"@, "swapETHForExactTokens"@)
        .insert("0x414bf389"@, "exactInputSingle"@)
        .insert("0xb858183f"@, "exactInput"@)
        .insert("0xdb3e2198"@, "exactOutputSingle"@)
        .insert("0x5023b4df"@, "exactOutput"@)
        .insert("0x791ac947"@, "swapExactTokensForTokens"@)
}

/// The name under which the standard table lists a selector, read off the
/// list entry by entry.
pub open spec fn standard_name(selector: Seq<char>) -> Option<Seq<char>> {
    if selector == "0x38ed1739"@ {
        Some("swapExactTokensForTokens"@)
    } else if selector == "0x8803dbee"@ {
        Some("swapTokensForExactTokens"@)
    } else if selector == "0x7ff36ab5"@ {
        Some("swapExactETHForTokens"@)
    } else if selector == "0x4a25d94a"@ {
        Some("swapTokensForExactETH"@)
    } else if selector == "0x18cbafe5"@ {
        Some("swapExactTokensForETH"@)
    } else if selector == "0xfb3bdb41"@ {
        Some("swapETHForExactTokens"@)
    } else if selector == "0x414bf389"@ {
        Some("exactInputSingle"@)
    } else if selector == "0xb858183f"@ {
        Some("exactInput"@)
    } else if selector == "0xdb3e2198"@ {
        Some("exactOutputSingle"@)
    } else if selector == "0x5023b4df"@ {
        Some("exactOutput"@)
    } else if selector == "0x791ac947"@ {
        Some("swapExactTokensForTokens"@)
    } else {
        None
    }
}

/// The eleven selectors of the standard table differ from one another, so
/// the table gives each of them the name under which it is listed, and
/// gives no name to any other text.
pub proof fn lemma_standard_selectors_named(selector: Seq<char>)
    ensures
        name_in(standard_selectors(), selector) == standard_name(selector),
        standard_name(selector) is Some ==> selector.len() == SELECTOR_LEN,
{
    reveal_strlit("0x38ed1739");
    reveal_strlit("0x8803dbee");
    reveal_strlit("0x7ff36ab5");
    reveal_strlit("0x4a25d94a");
    reveal_strlit("0x18cbafe5");
    reveal_strlit("0xfb3bdb41");
    reveal_strlit("0x414bf389");
    reveal_strlit("0xb858183f");
    reveal_strlit("0xdb3e2198");
    reveal_strlit("0x5023b4df");
    reveal_strlit("0x791ac947");
    // The third and fourth characters tell the eleven selectors apart.
    assert("0x38ed1739"@[2] == '3' && "0x38ed1739"@[3] == '8');
    assert("0x8803dbee"@[2] == '8' && "0x8803dbee"@[3] == '8');
    assert("0x7ff36ab5"@[2] == '7' && "0x7ff36ab5"@[3] == 'f');
    assert("0x4a25d94a"@[2] == '4' && "0x4a25d94a"@[3] == 'a');
    assert("0x18cbafe5"@[2] == '1' && "0x18cbafe5"@[3] == '8');
    assert("0xfb3bdb41"@[2] == 'f' && "0xfb3bdb41"@[3] == 'b');
    assert("0x414bf389"@[2] == '4' && "0x414bf389"@[3] == '1');
    assert("0xb858183f"@[2] == 'b' && "0xb858183f"@[3] == '8');
    assert("0xdb3e2198"@[2] == 'd' && "0xdb3e2198"@[3] == 'b');
    assert("0x5023b4df"@[2] == '5' && "0x5023b4df"@[3] == '0');
    assert("0x791ac947"@[2] == '7' && "0x791ac947"@[3] == '9');
}

/// A mapping from selectors to function names.
pub struct SelectorTable {
    entries: Vec<(String, String)>,
}

impl View for SelectorTable {
    type V = Map<Seq<char>, Seq<char>>;

    closed spec fn view(&self) -> Map<Seq<char>, Seq<char>> {
        mapping_of(self.listed())
    }
}

impl SelectorTable {
    /// The entries as texts, in the order in which they were added.
    closed spec fn listed(&self) -> Seq<(Seq<char>, Seq<char>)> {
        Seq::new(self.entries@.len(), |i: int| (self.entries@[i].0@, self.entries@[i].1@))
    }

    /// The table without entries.
    pub fn new() -> (table: Self)
        ensures
            table@ == Map::<Seq<char>, Seq<char>>::empty(),
    {
        SelectorTable { entries: Vec::new() }
    }

    /// Names a selector.  An earlier name of the same selector is replaced.
    pub fn insert(&mut self, selector: &str, name: &str)
        ensures
            final(self)@ == old(self)@.insert(selector@, name@),
    {
        self.entries.push((selector.to_owned(), name.to_owned()));
        proof {
            assert(self.listed().drop_last() == old(self).listed());
        }
    }

    /// The table of `standard_selectors`.
    pub fn standard() -> (table: Self)
        ensures
            table@ == standard_selectors(),
    {
        let mut table = SelectorTable::new();
        table.insert("0x38ed1739", "swapExactTokensForTokens");
        table.insert("0x8803dbee", "swapTokensForExactTokens");
        table.insert("0x7ff36ab5", "swapExactETHForTokens");
        table.insert("0x4a25d94a", "swapTokensForExactETH");
        table.insert("0x18cbafe5", "swapExactTokensForETH");
        table.insert("0xfb3bdb41", "swapETHForExactTokens");
        table.insert("0x414bf389", "exactInputSingle");
        table.insert("0xb858183f", "exactInput");
        table.insert("0xdb3e2198", "exactOutputSingle");
        table.insert("0x5023b4df", "exactOutput");
        table.insert("0x791ac947", "swapExactTokensForTokens");
        table
    }

    /// The name of a selector: the name under which the selector was last
    /// inserted, and `Unknown` for a text that was never inserted.
    pub fn classify(&self, selector: &str) -> (name: FunctionName)
        ensures
            name@ == name_in(self@, selector@),
    {
        let key = selector.to_owned();
        let mut i: usize = self.entries.len();
        assert(self.listed().take(i as int) == self.listed());
        while i > 0
            invariant
                i <= self.entries@.len(),
                key@ == selector@,
                name_in(self@, selector@) == name_in(
                    mapping_of(self.listed().take(i as int)),
                    selector@,
                ),
            decreases i,
        {
            i -= 1;
            proof {
                let upto = self.listed().take(i as int + 1);
                assert(upto.drop_last() == self.listed().take(i as int));
                assert(upto.last() == self.listed()[i as int]);
            }
            if self.entries[i].0 == key {
                return FunctionName::Known(self.entries[i].1.clone());
            }
        }
        FunctionName::Unknown
    }
}

} // verus!
