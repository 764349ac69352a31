use vstd::prelude::*;

use crate::form::{count_field, extract_item, item_field, FormError};
use crate::log::texts;
use crate::store::Store;

verus! {

/// A view: a named rendering target, with the data it is rendered from.
pub enum Page {
    /// The full main page; it takes no data.
    MainPage,
    /// The secondary static page; it takes no data.
    AnotherPage,
    /// The list fragment, showing `items` in order.
    ItemList { items: Vec<String> },
}

/// The name under which a view is rendered.
pub open spec fn page_name(v: Page) -> Seq<char> {
    match v {
        Page::MainPage => "main-page"@,
        Page::AnotherPage => "another-page"@,
        Page::ItemList { .. } => "item-list"@,
    }
}

impl Page {
    /// The name under which this view is rendered.
    pub fn name(&self) -> (r: String)
        ensures
            r@ == page_name(*self),
    {
        match self {
            Page::MainPage => String::from_str("main-page"),
            Page::AnotherPage => String::from_str("another-page"),
            Page::ItemList { .. } => String::from_str("item-list"),
        }
    }
}

/// The main page: a static view that does not touch the store.
pub fn main_page() -> (r: Page)
    ensures
        r is MainPage,
{
    Page::MainPage
}

/// The secondary page: a static view that does not touch the store.
pub fn another_page() -> (r: Page)
    ensures
        r is AnotherPage,
{
    Page::AnotherPage
}

/// Handles a submitted form: takes the item out of its `todo` field, appends it
/// to the store and returns the list fragment to render, holding the sequence
/// as it stood right after the append. A form without exactly one `todo`
/// field is refused before the store is touched.
pub fn add_item(store: &Store, pairs: &Vec<(String, String)>) -> (r: Result<Page, FormError>)
    ensures
        count_field(pairs@, item_field()) == 0 <==> r matches Err(FormError::MissingField),
        count_field(pairs@, item_field()) > 1 <==> r matches Err(FormError::DuplicateField),
        count_field(pairs@, item_field()) == 1 <==> r is Ok,
        r matches Ok(p) ==> p matches Page::ItemList { items } && texts(items@).len() >= 1
            && exists|i: int|
            0 <= i < pairs@.len() && pairs@[i].0@ == item_field() && #[trigger] pairs@[i].1@
                == texts(items@).last(),
{
    match extract_item(pairs) {
        Err(e) => Err(e),
        Ok(item) => {
            let ghost text = item@;
            let items = store.append(item);
            assert(texts(items@).last() == text);
            Ok(Page::ItemList { items })
        },
    }
}

} // verus!
