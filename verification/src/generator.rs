//! Drawing addresses from three tables.

use rand::rngs::StdRng;
use vstd::prelude::*;
use crate::address::{Address, AddressText};
use crate::random::draw_below;
use crate::record::{table_text, Record};
use crate::street::{
    format_street, is_street, street_numbers, street_text, STREET_FIRST_MAX, STREET_SECOND_MAX,
    STREET_THIRD_MAX,
};

verus! {

/// The three tables that addresses are drawn from.
pub struct AddressHandler {
    pub states: Vec<Record>,
    pub cities: Vec<Record>,
    pub towns: Vec<Record>,
}

/// Why no addresses were generated.
#[derive(Debug, PartialEq, Eq, Clone, Copy)]
pub enum GenerateError {
    /// The number of addresses asked for is negative.
    NegativeCount,
    /// At least one address was asked for and a table has no rows.
    EmptyTable,
}

/// What the random source decides for one address: a row of each table,
/// and the three street numbers, each counted from zero.
#[derive(Debug, PartialEq, Eq, Clone, Copy)]
pub struct Draw {
    pub state: usize,
    pub city: usize,
    pub town: usize,
    pub street_1: usize,
    pub street_2: usize,
    pub street_3: usize,
}

impl AddressHandler {
    /// Whether every table has a row, so that an address can be drawn.
    pub open spec fn ready(&self) -> bool {
        self.states@.len() > 0 && self.cities@.len() > 0 && self.towns@.len() > 0
    }

    /// Whether `draw` names a row of each table and three street numbers
    /// within their ranges.
    pub open spec fn admits(&self, draw: Draw) -> bool {
        &&& draw.state < self.states@.len()
        &&& draw.city < self.cities@.len()
        &&& draw.town < self.towns@.len()
        &&& draw.street_1 < STREET_FIRST_MAX
        &&& draw.street_2 < STREET_SECOND_MAX
        &&& draw.street_3 < STREET_THIRD_MAX
    }

    /// The address that `draw` decides: the rows it names, and its street
    /// numbers counted from one.
    pub open spec fn address_of(&self, draw: Draw) -> AddressText {
        AddressText {
            state: self.states@[draw.state as int]@,
            city: self.cities@[draw.city as int]@,
            town: self.towns@[draw.town as int]@,
            street: street_text(
                (draw.street_1 + 1) as nat,
                (draw.street_2 + 1) as nat,
                (draw.street_3 + 1) as nat,
            ),
        }
    }

    /// Whether `address` can come out of these tables: its state, city and
    /// town are rows of the table of that name, and its street is a street.
    pub open spec fn can_yield(&self, address: AddressText) -> bool {
        &&& table_text(self.states@).contains(address.state)
        &&& table_text(self.cities@).contains(address.city)
        &&& table_text(self.towns@).contains(address.town)
        &&& is_street(address.street)
    }

    /// A handler over the given tables.
    pub fn new(states: Vec<Record>, cities: Vec<Record>, towns: Vec<Record>) -> (handler:
        AddressHandler)
        ensures
            handler.states == states,
            handler.cities == cities,
            handler.towns == towns,
    {
        AddressHandler { states, cities, towns }
    }

    /// Builds the address that `draw` decides.
    pub fn compose(&self, draw: &Draw) -> (address: Address)
        requires
            self.admits(*draw),
        ensures
            address@ == self.address_of(*draw),
            self.can_yield(address@),
    {
        let address = Address {
            state: self.states[draw.state].clone(),
            city: self.cities[draw.city].clone(),
            town: self.towns[draw.town].clone(),
            street: format_street(draw.street_1 + 1, draw.street_2 + 1, draw.street_3 + 1),
        };
        proof {
            self.lemma_admitted_draw_yields(*draw);
        }
        address
    }

    /// Asks the random source for the six numbers of one address: the rows
    /// first, state, city, town, then the street numbers in their order.
    fn draw(&self, rng: &mut StdRng) -> (draw: Draw)
        requires
            self.ready(),
        ensures
            self.admits(draw),
    {
        let state = draw_below(rng, self.states.len());
        let city = draw_below(rng, self.cities.len());
        let town = draw_below(rng, self.towns.len());
        let street_1 = draw_below(rng, STREET_FIRST_MAX);
        let street_2 = draw_below(rng, STREET_SECOND_MAX);
        let street_3 = draw_below(rng, STREET_THIRD_MAX);
        Draw { state, city, town, street_1, street_2, street_3 }
    }

    /// Generates `count` addresses, each drawn independently from `rng`.
    ///
    /// A negative `count` is refused. For `count == 0` the result is empty
    /// whatever the tables hold. For a positive `count` every table must
    /// have a row. Where nothing is drawn, `rng` is left as it was.
    pub fn generate(&self, count: i32, rng: &mut StdRng) -> (result: Result<
        Vec<Address>,
        GenerateError,
    >)
        ensures
            match result {
                Ok(addresses) => {
                    &&& count >= 0
                    &&& count > 0 ==> self.ready()
                    &&& addresses@.len() == count
                    &&& forall|i: int|
                        0 <= i < addresses@.len() ==> self.can_yield(#[trigger] addresses@[i]@)
                },
                Err(GenerateError::NegativeCount) => count < 0,
                Err(GenerateError::EmptyTable) => count > 0 && !self.ready(),
            },
            count <= 0 || !self.ready() ==> *final(rng) == *old(rng),
    {
        let mut addresses: Vec<Address> = Vec::new();
        if count < 0 {
            return Err(GenerateError::NegativeCount);
        }
        if count == 0 {
            return Ok(addresses);
        }
        if self.states.len() == 0 || self.cities.len() == 0 || self.towns.len() == 0 {
            return Err(GenerateError::EmptyTable);
        }
        let mut done: i32 = 0;
        while done < count
            invariant
                0 <= done <= count,
                self.ready(),
                addresses@.len() == done,
                forall|i: int|
                    0 <= i < addresses@.len() ==> self.can_yield(#[trigger] addresses@[i]@),
            decreases count - done,
        {
            let draw = self.draw(rng);
            let address = self.compose(&draw);
            addresses.push(address);
            done = done + 1;
        }
        Ok(addresses)
    }

    /// Every address that an admitted draw decides can come out of the
    /// tables: its parts are rows of their tables and its street is a
    /// street.
    pub proof fn lemma_admitted_draw_yields(&self, draw: Draw)
        requires
            self.admits(draw),
        ensures
            self.can_yield(self.address_of(draw)),
    {
        let address = self.address_of(draw);
        assert(table_text(self.states@)[draw.state as int] == address.state);
        assert(table_text(self.cities@)[draw.city as int] == address.city);
        assert(table_text(self.towns@)[draw.town as int] == address.town);
        let a = (draw.street_1 + 1) as nat;
        let b = (draw.street_2 + 1) as nat;
        let c = (draw.street_3 + 1) as nat;
        assert(street_numbers(a, b, c) && address.street == street_text(a, b, c));
    }

    /// Every address that can come out of the tables is the address of some
    /// admitted draw.
    pub proof fn lemma_yield_has_draw(&self, address: AddressText) -> (draw: Draw)
        requires
            self.can_yield(address),
        ensures
            self.admits(draw),
            self.address_of(draw) == address,
    {
        let states = table_text(self.states@);
        let cities = table_text(self.cities@);
        let towns = table_text(self.towns@);
        let state = choose|i: int| 0 <= i < states.len() && states[i] == address.state;
        let city = choose|i: int| 0 <= i < cities.len() && cities[i] == address.city;
        let town = choose|i: int| 0 <= i < towns.len() && towns[i] == address.town;
        assert(states.len() == self.states.len());
        assert(cities.len() == self.cities.len());
        assert(towns.len() == self.towns.len());
        let (a, b, c) = choose|a: nat, b: nat, c: nat|
            street_numbers(a, b, c) && address.street == #[trigger] street_text(a, b, c);
        Draw {
            state: state as usize,
            city: city as usize,
            town: town as usize,
            street_1: (a - 1) as usize,
            street_2: (b - 1) as usize,
            street_3: (c - 1) as usize,
        }
    }

    /// Where each table has a single row, that row is the state, the city
    /// and the town of every address that can come out, whatever the random
    /// source gives: only the street varies.
    pub proof fn lemma_single_rows_force_names(&self, address: AddressText)
        requires
            self.states@.len() == 1,
            self.cities@.len() == 1,
            self.towns@.len() == 1,
            self.can_yield(address),
        ensures
            address.state == self.states@[0]@,
            address.city == self.cities@[0]@,
            address.town == self.towns@[0]@,
            is_street(address.street),
            address.kanji() == self.states@[0]@.kanji + self.cities@[0]@.kanji
                + self.towns@[0]@.kanji + address.street,
            address.kana() == self.states@[0]@.kana + self.cities@[0]@.kana + self.towns@[0]@.kana
                + address.street,
    {
        let draw = self.lemma_yield_has_draw(address);
    }
}

} // verus!
