//! Place names in two scripts.

use vstd::prelude::*;

verus! {

/// One row of a table: the same place name in kanji and in kana.
#[derive(Debug, PartialEq, Eq)]
pub struct Record {
    pub name_kanji: String,
    pub name_kana: String,
}

/// The text of a record: its two names as sequences of characters.
pub struct RecordText {
    pub kanji: Seq<char>,
    pub kana: Seq<char>,
}

impl View for Record {
    type V = RecordText;

    open spec fn view(&self) -> RecordText {
        RecordText { kanji: self.name_kanji@, kana: self.name_kana@ }
    }
}

impl Clone for Record {
    fn clone(&self) -> (copy: Self)
        ensures
            copy == *self,
    {
        Record { name_kanji: self.name_kanji.clone(), name_kana: self.name_kana.clone() }
    }
}

/// The texts of the rows of a table, in table order.
pub open spec fn table_text(table: Seq<Record>) -> Seq<RecordText> {
    table.map_values(|r: Record| r@)
}

} // verus!
