//! Addresses and their written forms.

use vstd::prelude::*;
use crate::record::{Record, RecordText};

verus! {

/// A state, a city and a town, each a row of its table, and a street.
#[derive(Debug, PartialEq, Eq)]
pub struct Address {
    pub state: Record,
    pub city: Record,
    pub town: Record,
    pub street: String,
}

/// The text of an address.
pub struct AddressText {
    pub state: RecordText,
    pub city: RecordText,
    pub town: RecordText,
    pub street: Seq<char>,
}

impl View for Address {
    type V = AddressText;

    open spec fn view(&self) -> AddressText {
        AddressText {
            state: self.state@,
            city: self.city@,
            town: self.town@,
            street: self.street@,
        }
    }
}

impl AddressText {
    /// The address in kanji: state, city, town and street, with nothing
    /// between them.
    pub open spec fn kanji(self) -> Seq<char> {
        self.state.kanji + self.city.kanji + self.town.kanji + self.street
    }

    /// The address in kana: state, city, town and street, with nothing
    /// between them.
    pub open spec fn kana(self) -> Seq<char> {
        self.state.kana + self.city.kana + self.town.kana + self.street
    }

    /// The address as one line of two quoted fields, kanji then kana.
    pub open spec fn csv(self) -> Seq<char> {
        quoted_pair(self.kanji(), self.kana())
    }
}

/// Two fields, each between double quotes, with a comma between them. The
/// fields are copied as they are: a double quote inside one is not escaped.
pub open spec fn quoted_pair(first: Seq<char>, second: Seq<char>) -> Seq<char> {
    seq!['"'] + first + seq!['"', ',', '"'] + second + seq!['"']
}

impl Clone for Address {
    fn clone(&self) -> (copy: Self)
        ensures
            copy == *self,
    {
        Address {
            state: self.state.clone(),
            city: self.city.clone(),
            town: self.town.clone(),
            street: self.street.clone(),
        }
    }
}

impl Address {
    /// The address written in kanji.
    pub fn full_kanji(&self) -> (s: String)
        ensures
            s@ == self@.kanji(),
    {
        let mut s = self.state.name_kanji.clone();
        s.append(self.city.name_kanji.as_str());
        s.append(self.town.name_kanji.as_str());
        s.append(self.street.as_str());
        s
    }

    /// The address written in kana.
    pub fn full_kana(&self) -> (s: String)
        ensures
            s@ == self@.kana(),
    {
        let mut s = self.state.name_kana.clone();
        s.append(self.city.name_kana.as_str());
        s.append(self.town.name_kana.as_str());
        s.append(self.street.as_str());
        s
    }

    /// The address as one line of output: `"<kanji>","<kana>"`.
    pub fn full_csv(&self) -> (s: String)
        ensures
            s@ == self@.csv(),
            s@ == quoted_pair(self@.kanji(), self@.kana()),
    {
        proof {
            reveal_strlit("\"");
            reveal_strlit("\",\"");
        }
        let mut s = "\"".to_owned();
        s.append(self.full_kanji().as_str());
        s.append("\",\"");
        s.append(self.full_kana().as_str());
        s.append("\"");
        assert("\""@ =~= seq!['"']);
        assert("\",\""@ =~= seq!['"', ',', '"']);
        assert(s@ =~= quoted_pair(self@.kanji(), self@.kana()));
        s
    }
}

} // verus!
