use vstd::prelude::*;

use crate::value::{Neo4jResult, Value};

verus! {

/// An account as stored in the graph database.
pub struct Account {
    pub uid: String,
    pub mnemonic: String,
}

/// A dictionary key an account is read from.
pub open spec fn is_account_key(k: Seq<char>) -> bool {
    k == "uid"@ || k == "mnemonic"@
}

/// A query result an account can be read from: its first value is a
/// dictionary whose keys are all account keys, each holding a string.
pub open spec fn account_readable(values: Seq<Value>) -> bool {
    &&& values.len() >= 1
    &&& values[0] matches Value::Dict(entries) && forall|i: int|
        0 <= i < entries@.len() ==> {
            &&& is_account_key(#[trigger] entries@[i].0@)
            &&& entries@[i].1 is Str
        }
}

/// The text held under `key` by the last entry with that key, or the empty
/// text when no entry has it.
pub open spec fn text_at(entries: Seq<(String, Value)>, key: Seq<char>) -> Seq<char>
    decreases entries.len(),
{
    if entries.len() == 0 {
        Seq::empty()
    } else if entries.last().0@ == key {
        match entries.last().1 {
            Value::Str(s) => s@,
            _ => Seq::empty(),
        }
    } else {
        text_at(entries.drop_last(), key)
    }
}

impl Account {
    /// Whether `Account::try_from` can read an account from this result.
    pub fn can_read(v: &Neo4jResult) -> (b: bool)
        ensures
            b == account_readable(v.0@),
    {
        if v.0.len() == 0 {
            return false;
        }
        match &v.0[0] {
            Value::Dict(entries) => {
                let uid_key = "uid".to_owned();
                let mnemonic_key = "mnemonic".to_owned();
                let mut i: usize = 0;
                while i < entries.len()
                    invariant
                        i <= entries@.len(),
                        v.0@[0] == Value::Dict(*entries),
                        uid_key@ == "uid"@,
                        mnemonic_key@ == "mnemonic"@,
                        forall|k: int|
                            0 <= k < i ==> {
                                &&& is_account_key(#[trigger] entries@[k].0@)
                                &&& entries@[k].1 is Str
                            },
                    decreases entries@.len() - i,
                {
                    let key_ok = entries[i].0 == uid_key || entries[i].0 == mnemonic_key;
                    let is_text = match &entries[i].1 {
                        Value::Str(_) => true,
                        _ => false,
                    };
                    if !key_ok || !is_text {
                        return false;
                    }
                    assert(is_account_key(entries@[i as int].0@));
                    assert(entries@[i as int].1 is Str);
                    assert forall|k: int| 0 <= k < i + 1 implies {
                        &&& is_account_key(#[trigger] entries@[k].0@)
                        &&& entries@[k].1 is Str
                    } by {}
                    i = i + 1;
                }
                true
            },
            _ => false,
        }
    }

    /// Reads an account from the first value of a query result, a dictionary:
    /// `uid` and `mnemonic` are taken from the entries with those keys, and
    /// are empty when there is no such entry.
    pub fn try_from(v: Neo4jResult) -> (r: Result<Account, ()>)
        requires
            account_readable(v.0@),
        ensures
            r matches Ok(account) && (v.0@[0] matches Value::Dict(entries) && account.uid@
                == text_at(entries@, "uid"@) && account.mnemonic@ == text_at(
                entries@,
                "mnemonic"@,
            )),
    {
        let mut values = v.0;
        let first = values.remove(0);
        match first {
            Value::Dict(entries) => {
                let ghost all = entries@;
                let uid_key = "uid".to_owned();
                let mut account = Account { uid: String::new(), mnemonic: String::new() };
                for entry in it: entries
                    invariant
                        it.seq() == all,
                        uid_key@ == "uid"@,
                        forall|k: int|
                            0 <= k < all.len() ==> {
                                &&& is_account_key(#[trigger] all[k].0@)
                                &&& all[k].1 is Str
                            },
                        account.uid@ == text_at(all.take(it.index() as int), "uid"@),
                        account.mnemonic@ == text_at(all.take(it.index() as int), "mnemonic"@),
                {
                    let ghost k = it.index() as int;
                    proof {
                        assert(all.take(k + 1).drop_last() =~= all.take(k));
                        assert(all.take(k + 1).last() == all[k]);
                        assert(is_account_key(all[k].0@));
                        reveal_strlit("uid");
                        reveal_strlit("mnemonic");
                        assert("uid"@ != "mnemonic"@) by {
                            assert("uid"@.len() != "mnemonic"@.len());
                        }
                    }
                    let (key, value) = entry;
                    match value {
                        Value::Str(text) => {
                            if key == uid_key {
                                account.uid = text;
                            } else {
                                account.mnemonic = text;
                            }
                        },
                        _ => {
                            assert(false);
                        },
                    }
                }
                proof {
                    assert(all.take(all.len() as int) =~= all);
                }
                Ok(account)
            },
            _ => {
                assert(false);
                Err(())
            },
        }
    }
}


/// Only the first value of a result is read: values after it change neither
/// whether an account can be read nor the dictionary it is read from.
pub proof fn lemma_only_first_value_is_read(first: Value, rest: Seq<Value>)
    ensures
        account_readable(seq![first] + rest) == account_readable(seq![first]),
        (seq![first] + rest)[0] == first,
{
    assert((seq![first] + rest)[0] == first);
}

/// An account written as the dictionary `{uid: .., mnemonic: ..}` (in either
/// order) reads back as the same uid and mnemonic.
pub proof fn lemma_account_dictionary_read_back(
    entries: Seq<(String, Value)>,
    uid: String,
    mnemonic: String,
)
    requires
        entries.len() == 2,
        entries[0].0@ == "uid"@ && entries[0].1 == Value::Str(uid) && entries[1].0@ == "mnemonic"@
            && entries[1].1 == Value::Str(mnemonic) || entries[0].0@ == "mnemonic"@ && entries[0].1
            == Value::Str(mnemonic) && entries[1].0@ == "uid"@ && entries[1].1 == Value::Str(uid),
    ensures
        text_at(entries, "uid"@) == uid@,
        text_at(entries, "mnemonic"@) == mnemonic@,
{
    reveal_strlit("uid");
    reveal_strlit("mnemonic");
    assert("uid"@ != "mnemonic"@) by {
        assert("uid"@.len() != "mnemonic"@.len());
    }
    let first = entries.drop_last();
    assert(first.drop_last() =~= Seq::<(String, Value)>::empty());
    assert(first.last() == entries[0]);
    assert(text_at(first.drop_last(), "uid"@) == Seq::<char>::empty());
    assert(text_at(first.drop_last(), "mnemonic"@) == Seq::<char>::empty());
    assert(text_at(entries, "uid"@) == if entries[1].0@ == "uid"@ {
        uid@
    } else {
        text_at(first, "uid"@)
    });
    assert(text_at(entries, "mnemonic"@) == if entries[1].0@ == "mnemonic"@ {
        mnemonic@
    } else {
        text_at(first, "mnemonic"@)
    });
}

} // verus!
