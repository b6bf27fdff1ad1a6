use vstd::prelude::*;

verus! {

/// What a message carries: either one text, or a list of entries.
#[derive(Debug, PartialEq, Eq)]
pub enum Contents {
    Text(String),
    Entries(Vec<String>),
}

/// The mathematical value of [`Contents`]: the characters of the text, or the
/// characters of each entry, in order.
pub enum ContentsView {
    Text(Seq<char>),
    Entries(Seq<Seq<char>>),
}

impl ContentsView {
    /// Whether there is nothing in it: an empty text, or no entry at all.
    pub open spec fn is_empty(self) -> bool {
        match self {
            ContentsView::Text(t) => t.len() == 0,
            ContentsView::Entries(es) => es.len() == 0,
        }
    }

    /// The contents after `t` is added at the end of the text.
    pub open spec fn add_text(self, t: Seq<char>) -> ContentsView
        recommends
            self is Text,
    {
        ContentsView::Text(self->Text_0 + t)
    }

    /// The contents after `e` is added as the last entry.
    pub open spec fn add_entry(self, e: Seq<char>) -> ContentsView
        recommends
            self is Entries,
    {
        ContentsView::Entries(self->Entries_0.push(e))
    }
}

/// The characters of each string, in order.
pub open spec fn strings_view(v: Seq<String>) -> Seq<Seq<char>> {
    v.map_values(|s: String| s@)
}

impl View for Contents {
    type V = ContentsView;

    open spec fn view(&self) -> ContentsView {
        match self {
            Contents::Text(t) => ContentsView::Text(t@),
            Contents::Entries(es) => ContentsView::Entries(strings_view(es@)),
        }
    }
}

/// The value of optional borrowed contents.
pub open spec fn optional_contents_view(contents: Option<&Contents>) -> Option<ContentsView> {
    match contents {
        None => None,
        Some(c) => Some(c@),
    }
}

/// Whether the optional contents hold nothing: no contents at all counts as
/// empty.
pub open spec fn spec_optional_is_empty(contents: Option<ContentsView>) -> bool {
    match contents {
        None => true,
        Some(c) => c.is_empty(),
    }
}

/// Whether the optional contents are present and hold a text.
pub open spec fn spec_optional_is_text(contents: Option<ContentsView>) -> bool {
    contents matches Some(c) && c is Text
}

/// Whether the optional contents are present and hold a list of entries.
pub open spec fn spec_optional_is_entries(contents: Option<ContentsView>) -> bool {
    contents matches Some(c) && c is Entries
}

/// Makes contents that hold the text `text`.
pub fn contents_new_text(text: &str) -> (contents: Contents)
    ensures
        contents@ == ContentsView::Text(text@),
{
    Contents::Text(text.to_owned())
}

/// Makes contents that hold a list of no entries.
pub fn contents_new_entries() -> (contents: Contents)
    ensures
        contents@ == ContentsView::Entries(Seq::empty()),
{
    let entries: Vec<String> = Vec::new();
    let contents = Contents::Entries(entries);
    assert(contents@ =~= ContentsView::Entries(Seq::empty())) by {
        assert(strings_view(entries@) =~= Seq::empty());
    }
    contents
}

/// Whether `contents` hold nothing. Absent contents hold nothing.
pub fn contents_is_empty(contents: Option<&Contents>) -> (empty: bool)
    ensures
        empty == spec_optional_is_empty(optional_contents_view(contents)),
{
    match contents {
        None => true,
        Some(Contents::Text(text)) => text.as_str().is_empty(),
        Some(Contents::Entries(entries)) => entries.len() == 0,
    }
}

/// Whether `contents` are present and hold a text.
pub fn contents_is_text(contents: Option<&Contents>) -> (is_text: bool)
    ensures
        is_text == spec_optional_is_text(optional_contents_view(contents)),
{
    match contents {
        Some(Contents::Text(_)) => true,
        _ => false,
    }
}

/// Whether `contents` are present and hold a list of entries.
pub fn contents_is_entries(contents: Option<&Contents>) -> (is_entries: bool)
    ensures
        is_entries == spec_optional_is_entries(optional_contents_view(contents)),
{
    match contents {
        Some(Contents::Entries(_)) => true,
        _ => false,
    }
}

/// Adds `text` at the end of the text that `contents` hold.
pub fn contents_add_text(contents: &mut Contents, text: &str)
    requires
        old(contents)@ is Text,
    ensures
        final(contents)@ == old(contents)@.add_text(text@),
{
    match contents {
        Contents::Text(t) => {
            t.append(text);
        },
        Contents::Entries(_) => {},
    }
}

/// The text that `contents` hold.
pub fn contents_get_text(contents: &Contents) -> (text: &str)
    requires
        contents@ is Text,
    ensures
        text@ == contents@->Text_0,
{
    match contents {
        Contents::Text(t) => t.as_str(),
        Contents::Entries(_) => "",
    }
}

/// Adds `entry` as the last of the entries that `contents` hold.
pub fn contents_add_entry(contents: &mut Contents, entry: &str)
    requires
        old(contents)@ is Entries,
    ensures
        final(contents)@ == old(contents)@.add_entry(entry@),
{
    match contents {
        Contents::Entries(entries) => {
            let ghost before = entries@;
            entries.push(entry.to_owned());
            assert(strings_view(entries@) =~= strings_view(before).push(entry@));
        },
        Contents::Text(_) => {},
    }
}

/// The number of entries that `contents` hold.
pub fn contents_count_entries(contents: &Contents) -> (count: u64)
    requires
        contents@ is Entries,
    ensures
        count == contents@->Entries_0.len(),
{
    match contents {
        Contents::Entries(entries) => entries.len() as u64,
        Contents::Text(_) => 0,
    }
}

/// The entry at `index` of the entries that `contents` hold.
pub fn contents_get_entry(contents: &Contents, index: u64) -> (entry: &str)
    requires
        contents@ is Entries,
        index < contents@->Entries_0.len(),
    ensures
        entry@ == contents@->Entries_0[index as int],
{
    match contents {
        Contents::Entries(entries) => {
            let count: usize = entries.len();
            assert(strings_view(entries@).len() == count);
            let i: usize = index as usize;
            assert(strings_view(entries@)[i as int] == entries@[i as int]@);
            entries[i].as_str()
        },
        Contents::Text(_) => "",
    }
}

/// Present contents hold either a text or a list of entries, never both;
/// absent contents hold neither, and count as empty.
pub proof fn law_contents_kind(contents: Option<ContentsView>)
    ensures
        contents is Some ==> spec_optional_is_text(contents) != spec_optional_is_entries(
            contents,
        ),
        contents is None ==> !spec_optional_is_text(contents) && !spec_optional_is_entries(
            contents,
        ) && spec_optional_is_empty(contents),
{
}

/// Contents made from a text hold a text, give that text back, and are empty
/// exactly when the text is.
pub proof fn law_contents_new_text(text: Seq<char>)
    ensures
        spec_optional_is_text(Some(ContentsView::Text(text))),
        !spec_optional_is_entries(Some(ContentsView::Text(text))),
        ContentsView::Text(text)->Text_0 == text,
        spec_optional_is_empty(Some(ContentsView::Text(text))) == (text.len() == 0),
{
}

/// Contents made as a list of entries hold a list, with no entry, and are
/// empty.
pub proof fn law_contents_new_entries()
    ensures
        spec_optional_is_entries(Some(ContentsView::Entries(Seq::empty()))),
        !spec_optional_is_text(Some(ContentsView::Entries(Seq::empty()))),
        ContentsView::Entries(Seq::<Seq<char>>::empty())->Entries_0.len() == 0,
        spec_optional_is_empty(Some(ContentsView::Entries(Seq::empty()))),
{
}

/// After a text is added, the text read back is the old text followed by the
/// added one; the contents still hold a text, and they are empty exactly when
/// both the old and the added text are. Adding two texts in turn is adding
/// their concatenation, and adding the empty text changes nothing.
pub proof fn law_contents_add_text(contents: ContentsView, t: Seq<char>, u: Seq<char>)
    requires
        contents is Text,
    ensures
        contents.add_text(t) is Text,
        contents.add_text(t)->Text_0 == contents->Text_0 + t,
        contents.add_text(t).is_empty() == (contents.is_empty() && t.len() == 0),
        contents.add_text(t).add_text(u) == contents.add_text(t + u),
        contents.add_text(Seq::empty()) == contents,
{
    assert(contents->Text_0 + t + u =~= contents->Text_0 + (t + u));
    assert(contents->Text_0 + Seq::<char>::empty() =~= contents->Text_0);
}

/// After an entry is added, there is one entry more, the last one is the
/// added entry, the entries before it are unchanged, and the contents are not
/// empty.
pub proof fn law_contents_add_entry(contents: ContentsView, e: Seq<char>)
    requires
        contents is Entries,
    ensures
        contents.add_entry(e) is Entries,
        contents.add_entry(e)->Entries_0.len() == contents->Entries_0.len() + 1,
        contents.add_entry(e)->Entries_0[contents->Entries_0.len() as int] == e,
        forall|i: int|
            0 <= i < contents->Entries_0.len() ==> #[trigger] contents.add_entry(e)->Entries_0[i]
                == contents->Entries_0[i],
        !contents.add_entry(e).is_empty(),
{
}

} // verus!
