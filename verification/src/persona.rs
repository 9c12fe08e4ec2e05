//! The persona the pet starts with.

use vstd::prelude::*;

use crate::models::Persona;

verus! {

/// The persona stored when none exists: Claw Mini, friendly and
/// pragmatic, quiet from 23:00 to 08:00.
pub fn default_persona() -> (p: Persona)
    ensures
        p.id@ == "default"@,
        p.name@ == "Claw Mini"@,
        p.tone@ == "friendly-pragmatic"@,
        p.style_tags@ == "efficiency,kind,focused"@,
        p.prohibited_topics@ == "illegal,unsafe"@,
        p.initiative_level == 60,
        p.quiet_hours_start matches Some(s) && s@ == "23:00"@,
        p.quiet_hours_end matches Some(e) && e@ == "08:00"@,
{
    Persona {
        id: String::from_str("default"),
        name: String::from_str("Claw Mini"),
        tone: String::from_str("friendly-pragmatic"),
        style_tags: String::from_str("efficiency,kind,focused"),
        prohibited_topics: String::from_str("illegal,unsafe"),
        initiative_level: 60,
        quiet_hours_start: Some(String::from_str("23:00")),
        quiet_hours_end: Some(String::from_str("08:00")),
    }
}

/// Whether the default persona must be stored, given the id of the stored
/// persona row found under its id, if any: only when there is none.
pub fn seed_needed(existing: Option<String>) -> (r: bool)
    ensures
        r == (existing is None),
{
    existing.is_none()
}

/// The persona table, keyed by id, after seeding `row` into `table`: a row
/// is stored under its id only where none is stored yet.
pub open spec fn seeded(table: Map<Seq<char>, Persona>, row: Persona) -> Map<Seq<char>, Persona> {
    if table.contains_key(row.id@) {
        table
    } else {
        table.insert(row.id@, row)
    }
}

/// Law: seeding is idempotent, keeps a persona already stored under the
/// id, stores the row where none was, and touches no other persona.
pub proof fn law_seeding_is_idempotent(table: Map<Seq<char>, Persona>, row: Persona)
    ensures
        seeded(seeded(table, row), row) == seeded(table, row),
        table.contains_key(row.id@) ==> seeded(table, row) == table,
        !table.contains_key(row.id@) ==> seeded(table, row) == table.insert(row.id@, row),
        seeded(table, row).contains_key(row.id@),
        forall|k: Seq<char>| k != row.id@ ==> (#[trigger] seeded(table, row).contains_key(k)
            == table.contains_key(k)) && (table.contains_key(k) ==> seeded(table, row)[k] == table[k]),
{
}

} // verus!
