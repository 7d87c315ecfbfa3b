//! The renderings of a creature and of an error.

use vstd::prelude::*;
use vstd::string::StringExecFns;
use crate::api::models::{Pokemon, PokemonAbility, PokemonStat, PokemonType};
use crate::error::PokeCliError;
use crate::output::paint::{bright_cyan, green, red_bold, yellow};
use crate::output::table::{draw_rounded_table, record_text, records_text, rounded_table};
use crate::output::text::{decimal, join, joined, str_to_uppercase, u32_to_string, uppercase};

verus! {

/// The first line of a report and the empty line below it: the name, the
/// number and the types of the creature, the types with a stroke between
/// each two.
pub open spec fn header_line(name: Seq<char>, id: Seq<char>, types: Seq<Seq<char>>) -> Seq<char> {
    name + " "@ + id + " - "@ + joined(types, "/"@) + "\n\n"@
}

/// The records of the table of measures: its header, then height, weight
/// and base experience.
pub open spec fn basic_rows(pokemon: Pokemon) -> Seq<Seq<Seq<char>>> {
    seq![
        seq!["attribute"@, "value"@],
        seq!["Height"@, decimal(pokemon.height as nat) + " decimeters"@],
        seq!["Weight"@, decimal(pokemon.weight as nat) + " hectograms"@],
        seq![
            "Base Experience"@,
            match pokemon.base_experience {
                Some(points) => decimal(points as nat),
                None => "Unknown"@,
            },
        ],
    ]
}

/// The record of one stat: its name, its base value and its effort.
pub open spec fn stat_row(stat: PokemonStat) -> Seq<Seq<char>> {
    seq![stat.stat.name@, decimal(stat.base_stat as nat), decimal(stat.effort as nat)]
}

/// The records of the table of stats: its header, then the stats in their
/// order.
pub open spec fn stat_rows(pokemon: Pokemon) -> Seq<Seq<Seq<char>>> {
    seq![seq!["stat"@, "base_value"@, "effort"@]] + pokemon.stats@.map_values(
        |stat: PokemonStat| stat_row(stat),
    )
}

/// The record of one ability: its name, whether it is hidden, and its
/// slot.
pub open spec fn ability_row(ability: PokemonAbility) -> Seq<Seq<char>> {
    seq![
        ability.ability.name@,
        if ability.is_hidden {
            "Yes"@
        } else {
            "No"@
        },
        decimal(ability.slot as nat),
    ]
}

/// The records of the table of abilities: its header, then the abilities
/// in their order.
pub open spec fn ability_rows(pokemon: Pokemon) -> Seq<Seq<Seq<char>>> {
    seq![seq!["ability"@, "hidden"@, "slot"@]] + pokemon.abilities@.map_values(
        |ability: PokemonAbility| ability_row(ability),
    )
}

/// A report put together from its parts: the header line, the table of
/// measures, and the tables of stats and of abilities under their titles.
pub open spec fn report(
    name: Seq<char>,
    id: Seq<char>,
    types: Seq<Seq<char>>,
    basic: Seq<char>,
    stats: Seq<char>,
    abilities: Seq<char>,
) -> Seq<char> {
    header_line(name, id, types) + basic + "\n\n"@ + "Stats:\n"@ + stats + "\n\n"@
        + "Abilities:\n"@ + abilities
}

/// The report on a creature whose name, number and types appear as the
/// texts given.
pub open spec fn report_on(
    pokemon: Pokemon,
    name: Seq<char>,
    id: Seq<char>,
    types: Seq<Seq<char>>,
) -> Seq<char> {
    report(
        name,
        id,
        types,
        rounded_table(basic_rows(pokemon)),
        rounded_table(stat_rows(pokemon)),
        rounded_table(ability_rows(pokemon)),
    )
}

/// The name of each type in capitals.
pub open spec fn type_names(pokemon: Pokemon) -> Seq<Seq<char>> {
    pokemon.types@.map_values(|kind: PokemonType| uppercase(kind.type_info.name@))
}

/// The report without colour: the name and the types in capitals, the
/// number behind a hash sign.
pub open spec fn plain_report(pokemon: Pokemon) -> Seq<char> {
    report_on(
        pokemon,
        uppercase(pokemon.name@),
        "#"@ + decimal(pokemon.id as nat),
        type_names(pokemon),
    )
}

/// The text is a report on the creature in which name, number and types
/// appear in some rendering, one text for each type.
pub open spec fn is_report_on(text: Seq<char>, pokemon: Pokemon) -> bool {
    exists|name: Seq<char>, id: Seq<char>, types: Seq<Seq<char>>|
        types.len() == pokemon.types.len() && text == #[trigger] report_on(pokemon, name, id, types)
}

/// Mapping a prefix that is one longer maps one more element.
proof fn lemma_map_prefix<A, B>(items: Seq<A>, each: spec_fn(A) -> B, count: int)
    requires
        0 <= count < items.len(),
    ensures
        items.subrange(0, count + 1).map_values(each) == items.subrange(0, count).map_values(
            each,
        ).push(each(items[count])),
{
    assert(items.subrange(0, count + 1).map_values(each) =~= items.subrange(0, count).map_values(
        each,
    ).push(each(items[count])));
}

/// Appends a record to a list of records.
fn push_record(records: &mut Vec<Vec<String>>, record: Vec<String>)
    ensures
        records_text(final(records)@) == records_text(old(records)@).push(record_text(record)),
{
    records.push(record);
    assert(records_text(records@) =~= records_text(old(records)@).push(record_text(record)));
}

/// A record of two cells.
fn record_of_two(first: &str, second: String) -> (record: Vec<String>)
    ensures
        record_text(record) == seq![first@, second@],
{
    let mut record: Vec<String> = Vec::new();
    record.push(String::from_str(first));
    record.push(second);
    assert(record_text(record) =~= seq![first@, second@]);
    record
}

/// A record of three cells.
fn record_of_three(first: String, second: String, third: String) -> (record: Vec<String>)
    ensures
        record_text(record) == seq![first@, second@, third@],
{
    let mut record: Vec<String> = Vec::new();
    record.push(first);
    record.push(second);
    record.push(third);
    assert(record_text(record) =~= seq![first@, second@, third@]);
    record
}

/// Renders a creature as a header line and three tables, and errors as a
/// line of their own, with or without colour.
pub struct TableFormatter {
    colored: bool,
}

impl TableFormatter {
    /// Whether this formatter asks for colour.
    pub closed spec fn uses_colors(&self) -> bool {
        self.colored
    }

    /// A formatter that asks for colour.
    pub fn new() -> (formatter: Self)
        ensures
            formatter.uses_colors(),
    {
        TableFormatter { colored: true }
    }

    /// The formatter with colour switched on or off.
    pub fn with_colors(self, colored: bool) -> (formatter: Self)
        ensures
            formatter.uses_colors() == colored,
    {
        let mut formatter = self;
        formatter.colored = colored;
        formatter
    }

    /// The records of the table of measures.
    pub fn basic_records(pokemon: &Pokemon) -> (records: Vec<Vec<String>>)
        ensures
            records_text(records@) == basic_rows(*pokemon),
    {
        let experience = match pokemon.base_experience {
            Some(points) => u32_to_string(points),
            None => String::from_str("Unknown"),
        };
        let mut records: Vec<Vec<String>> = Vec::new();
        assert(records_text(records@) =~= Seq::empty());
        push_record(&mut records, record_of_two("attribute", String::from_str("value")));
        push_record(
            &mut records,
            record_of_two("Height", u32_to_string(pokemon.height).concat(" decimeters")),
        );
        push_record(
            &mut records,
            record_of_two("Weight", u32_to_string(pokemon.weight).concat(" hectograms")),
        );
        push_record(&mut records, record_of_two("Base Experience", experience));
        assert(records_text(records@) =~= basic_rows(*pokemon)) by {
            assert(records_text(records@)[0] == basic_rows(*pokemon)[0]);
            assert(records_text(records@)[1] == basic_rows(*pokemon)[1]);
            assert(records_text(records@)[2] == basic_rows(*pokemon)[2]);
            assert(records_text(records@)[3] == basic_rows(*pokemon)[3]);
        }
        records
    }

    /// The records of the table of stats.
    pub fn stat_records(pokemon: &Pokemon) -> (records: Vec<Vec<String>>)
        ensures
            records_text(records@) == stat_rows(*pokemon),
    {
        let mut records: Vec<Vec<String>> = Vec::new();
        assert(records_text(records@) =~= Seq::empty());
        push_record(
            &mut records,
            record_of_three(
                String::from_str("stat"),
                String::from_str("base_value"),
                String::from_str("effort"),
            ),
        );
        let ghost header = records_text(records@);
        assert(header =~= seq![seq!["stat"@, "base_value"@, "effort"@]]);
        assert(pokemon.stats@.subrange(0, 0).map_values(|stat: PokemonStat| stat_row(stat))
            =~= Seq::empty());
        assert(header + Seq::<Seq<Seq<char>>>::empty() =~= header);
        let mut i: usize = 0;
        while i < pokemon.stats.len()
            invariant
                i <= pokemon.stats.len(),
                header == seq![seq!["stat"@, "base_value"@, "effort"@]],
                records_text(records@) == header + pokemon.stats@.subrange(0, i as int).map_values(
                    |stat: PokemonStat| stat_row(stat),
                ),
            decreases pokemon.stats.len() - i,
        {
            let stat = &pokemon.stats[i];
            proof {
                lemma_map_prefix(pokemon.stats@, |stat: PokemonStat| stat_row(stat), i as int);
            }
            push_record(
                &mut records,
                record_of_three(
                    stat.stat.name.clone(),
                    u32_to_string(stat.base_stat),
                    u32_to_string(stat.effort),
                ),
            );
            i += 1;
            assert(records_text(records@) =~= header + pokemon.stats@.subrange(
                0,
                i as int,
            ).map_values(|stat: PokemonStat| stat_row(stat)));
        }
        assert(pokemon.stats@.subrange(0, i as int) == pokemon.stats@);
        records
    }

    /// The records of the table of abilities.
    pub fn ability_records(pokemon: &Pokemon) -> (records: Vec<Vec<String>>)
        ensures
            records_text(records@) == ability_rows(*pokemon),
    {
        let mut records: Vec<Vec<String>> = Vec::new();
        assert(records_text(records@) =~= Seq::empty());
        push_record(
            &mut records,
            record_of_three(
                String::from_str("ability"),
                String::from_str("hidden"),
                String::from_str("slot"),
            ),
        );
        let ghost header = records_text(records@);
        assert(header =~= seq![seq!["ability"@, "hidden"@, "slot"@]]);
        assert(pokemon.abilities@.subrange(0, 0).map_values(
            |ability: PokemonAbility| ability_row(ability),
        ) =~= Seq::empty());
        assert(header + Seq::<Seq<Seq<char>>>::empty() =~= header);
        let mut i: usize = 0;
        while i < pokemon.abilities.len()
            invariant
                i <= pokemon.abilities.len(),
                header == seq![seq!["ability"@, "hidden"@, "slot"@]],
                records_text(records@) == header + pokemon.abilities@.subrange(
                    0,
                    i as int,
                ).map_values(|ability: PokemonAbility| ability_row(ability)),
            decreases pokemon.abilities.len() - i,
        {
            let ability = &pokemon.abilities[i];
            let hidden = if ability.is_hidden {
                String::from_str("Yes")
            } else {
                String::from_str("No")
            };
            let slot: u32 = ability.slot as u32;
            proof {
                lemma_map_prefix(
                    pokemon.abilities@,
                    |ability: PokemonAbility| ability_row(ability),
                    i as int,
                );
            }
            push_record(
                &mut records,
                record_of_three(ability.ability.name.clone(), hidden, u32_to_string(slot)),
            );
            i += 1;
            assert(records_text(records@) =~= header + pokemon.abilities@.subrange(
                0,
                i as int,
            ).map_values(|ability: PokemonAbility| ability_row(ability)));
        }
        assert(pokemon.abilities@.subrange(0, i as int) == pokemon.abilities@);
        records
    }

    /// Puts a report together from its parts.
    pub fn assemble(
        name: &str,
        id: &str,
        types: &Vec<String>,
        basic: &str,
        stats: &str,
        abilities: &str,
    ) -> (text: String)
        ensures
            text@ == report(
                name@,
                id@,
                types@.map_values(|kind: String| kind@),
                basic@,
                stats@,
                abilities@,
            ),
    {
        let kinds = join(types, "/");
        let mut text = String::from_str(name);
        text.append(" ");
        text.append(id);
        text.append(" - ");
        text.append(kinds.as_str());
        text.append("\n\n");
        text.append(basic);
        text.append("\n\n");
        text.append("Stats:\n");
        text.append(stats);
        text.append("\n\n");
        text.append("Abilities:\n");
        text.append(abilities);
        text
    }

    /// The report on a creature. Without colour it is the plain report.
    /// With colour the name, the number and each type are handed to the
    /// terminal colours first, and appear as they come back.
    pub fn format_pokemon(&self, pokemon: &Pokemon) -> (rendered: Result<String, PokeCliError>)
        ensures
            rendered is Ok,
            !self.uses_colors() ==> rendered.unwrap()@ == plain_report(*pokemon),
            self.uses_colors() ==> is_report_on(rendered.unwrap()@, *pokemon),
    {
        let upper = str_to_uppercase(pokemon.name.as_str());
        let name = if self.colored {
            bright_cyan(upper.as_str())
        } else {
            upper
        };
        let number = String::from_str("#").concat(u32_to_string(pokemon.id).as_str());
        let id = if self.colored {
            yellow(number.as_str())
        } else {
            number
        };
        let mut types: Vec<String> = Vec::new();
        let mut i: usize = 0;
        while i < pokemon.types.len()
            invariant
                i <= pokemon.types.len(),
                types.len() == i,
                !self.colored ==> types@.map_values(|kind: String| kind@) == pokemon.types@.subrange(
                    0,
                    i as int,
                ).map_values(|kind: PokemonType| uppercase(kind.type_info.name@)),
            decreases pokemon.types.len() - i,
        {
            let kind = str_to_uppercase(pokemon.types[i].type_info.name.as_str());
            proof {
                lemma_map_prefix(
                    pokemon.types@,
                    |kind: PokemonType| uppercase(kind.type_info.name@),
                    i as int,
                );
                lemma_map_prefix(types@.push(kind), |kind: String| kind@, i as int);
                assert(types@.push(kind).subrange(0, i as int) == types@);
                assert(types@.push(kind).subrange(0, i + 1) == types@.push(kind));
            }
            if self.colored {
                types.push(green(kind.as_str()));
            } else {
                types.push(kind);
            }
            i += 1;
            assert(!self.colored ==> types@.map_values(|kind: String| kind@)
                =~= pokemon.types@.subrange(0, i as int).map_values(
                |kind: PokemonType| uppercase(kind.type_info.name@),
            ));
        }
        assert(pokemon.types@.subrange(0, i as int) == pokemon.types@);
        let basic = draw_rounded_table(&Self::basic_records(pokemon));
        let stats = draw_rounded_table(&Self::stat_records(pokemon));
        let abilities = draw_rounded_table(&Self::ability_records(pokemon));
        let text = Self::assemble(
            name.as_str(),
            id.as_str(),
            &types,
            basic.as_str(),
            stats.as_str(),
            abilities.as_str(),
        );
        assert(text@ == report_on(*pokemon, name@, id@, types@.map_values(|kind: String| kind@)));
        Ok(text)
    }

    /// The line that reports an error: the word `Error`, a colon and the
    /// text. With colour the word is handed to the terminal colours first
    /// (red and bold) and appears as it comes back.
    pub fn format_error(&self, error: &str) -> (line: String)
        ensures
            !self.uses_colors() ==> line@ == "Error: "@ + error@,
            self.uses_colors() ==> exists|label: Seq<char>| line@ == label + ": "@ + error@,
    {
        if self.colored {
            let label = red_bold("Error");
            Self::label_error(label.as_str(), error)
        } else {
            String::from_str("Error: ").concat(error)
        }
    }

    /// An error under a label: the label, a colon and the text.
    pub fn label_error(label: &str, error: &str) -> (line: String)
        ensures
            line@ == label@ + ": "@ + error@,
    {
        String::from_str(label).concat(": ").concat(error)
    }
}

impl Default for TableFormatter {
    fn default() -> (formatter: Self)
        ensures
            formatter.uses_colors(),
    {
        Self::new()
    }
}

/// Renders errors as JSON.
pub struct JsonFormatter;

impl JsonFormatter {
    pub fn new() -> Self {
        JsonFormatter
    }

    /// The error as an object with the one member `error`. The text is
    /// taken as it is: nothing in it is escaped.
    pub fn format_error(&self, error: &str) -> (line: String)
        ensures
            line@ == "{\"error\": \""@ + error@ + "\"}"@,
    {
        String::from_str("{\"error\": \"").concat(error).concat("\"}")
    }
}

impl Default for JsonFormatter {
    fn default() -> Self {
        Self::new()
    }
}

/// Renders errors as YAML.
pub struct YamlFormatter;

impl YamlFormatter {
    pub fn new() -> Self {
        YamlFormatter
    }

    /// The error as a mapping with the one key `error`.
    pub fn format_error(&self, error: &str) -> (line: String)
        ensures
            line@ == "error: "@ + error@,
    {
        String::from_str("error: ").concat(error)
    }
}

impl Default for YamlFormatter {
    fn default() -> Self {
        Self::new()
    }
}

} // verus!
