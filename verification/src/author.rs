//! The author, as the entries of the user's global version-control
//! configuration name them.

use vstd::prelude::*;
use crate::project::AuthorInfo;
use crate::text::view_of;

verus! {

/// One entry of the configuration as it was read: its name and its value,
/// each absent where it is not Unicode text, or the failure to read it.
#[derive(Clone, Debug)]
pub enum ConfigItem {
    Failed,
    Read { name: Option<String>, value: Option<String> },
}

/// What an entry holds, as plain text.
pub enum ConfigItemView {
    Failed,
    Read { name: Option<Seq<char>>, value: Option<Seq<char>> },
}

impl View for ConfigItem {
    type V = ConfigItemView;

    open spec fn view(&self) -> ConfigItemView {
        match *self {
            ConfigItem::Failed => ConfigItemView::Failed,
            ConfigItem::Read { name, value } => ConfigItemView::Read {
                name: match name {
                    Some(n) => Some(n@),
                    None => None,
                },
                value: match value {
                    Some(v) => Some(v@),
                    None => None,
                },
            },
        }
    }
}

/// The views of the entries held in `v`.
pub open spec fn item_views(v: Seq<ConfigItem>) -> Seq<ConfigItemView> {
    Seq::new(v.len(), |i: int| v[i]@)
}

/// An entry is usable when it was read and both its name and its value are
/// text.
pub open spec fn is_usable(item: ConfigItemView) -> bool {
    match item {
        ConfigItemView::Failed => false,
        ConfigItemView::Read { name, value } => name is Some && value is Some,
    }
}

/// The value of the last entry named `key`, if there is one.
pub open spec fn last_value(items: Seq<ConfigItemView>, key: Seq<char>) -> Option<Seq<char>>
    decreases items.len(),
{
    if items.len() == 0 {
        None
    } else {
        match items.last() {
            ConfigItemView::Read { name: Some(n), value: Some(v) } if n == key => Some(v),
            _ => last_value(items.drop_last(), key),
        }
    }
}

/// Name and address of the author: the values of the last entries named
/// `user.name` and `user.email`. Absent where either is missing, and where
/// any entry at all is not usable.
pub open spec fn author_of(items: Seq<ConfigItemView>) -> Option<(Seq<char>, Seq<char>)> {
    if forall|i: int| 0 <= i < items.len() ==> is_usable(#[trigger] items[i]) {
        match (last_value(items, "user.name"@), last_value(items, "user.email"@)) {
            (Some(name), Some(email)) => Some((name, email)),
            _ => None,
        }
    } else {
        None
    }
}

/// What the configuration says of the author, where it could be read at all
/// (`None` stands for a configuration that could not be opened or listed).
pub open spec fn author_found(config: Option<Vec<ConfigItem>>) -> Option<(Seq<char>, Seq<char>)> {
    match config {
        Some(items) => author_of(item_views(items@)),
        None => None,
    }
}

/// The author's name and address, taken from the entries of the `user`
/// section of the global configuration. Any failure along the way, and the
/// lack of either value, gives `None`.
pub fn get_author_email(config: &Option<Vec<ConfigItem>>) -> (out: Option<AuthorInfo>)
    ensures
        match author_found(*config) {
            Some((name, email)) => out is Some && out->Some_0.name@ == name && out->Some_0.email@
                == email,
            None => out is None,
        },
{
    let items = match config {
        Some(items) => items,
        None => {
            return None;
        },
    };
    let ghost views = item_views(items@);
    let key_name = "user.name".to_owned();
    let key_email = "user.email".to_owned();
    let mut name: Option<String> = None;
    let mut email: Option<String> = None;
    let mut i: usize = 0;
    assert(views.take(0) =~= Seq::<ConfigItemView>::empty());
    while i < items.len()
        invariant
            i <= items.len(),
            *config == Some(*items),
            views == item_views(items@),
            key_name@ == "user.name"@,
            key_email@ == "user.email"@,
            forall|k: int| 0 <= k < i ==> is_usable(#[trigger] views[k]),
            view_of(name) == last_value(views.take(i as int), "user.name"@),
            view_of(email) == last_value(views.take(i as int), "user.email"@),
        decreases items.len() - i,
    {
        assert(views.take(i + 1).drop_last() =~= views.take(i as int));
        assert(views.take(i + 1).last() == views[i as int]);
        assert(views[i as int] == items[i as int]@);
        match &items[i] {
            ConfigItem::Read { name: Some(n), value: Some(v) } => {
                if *n == key_name {
                    name = Some(v.clone());
                } else if *n == key_email {
                    email = Some(v.clone());
                }
                proof {
                    reveal_strlit("user.name");
                    reveal_strlit("user.email");
                    assert("user.name"@ != "user.email"@) by {
                        assert("user.name"@.len() != "user.email"@.len());
                    }
                }
            },
            _ => {
                assert(!is_usable(views[i as int]));
                return None;
            },
        }
        i += 1;
    }
    assert(views.take(items.len() as int) =~= views);
    match (name, email) {
        (Some(name), Some(email)) => Some(AuthorInfo { name, email }),
        _ => None,
    }
}

} // verus!
