# nebulous_data

Game data, save-file formats and fleet tools for NEBULOUS: Fleet Command,
written in Verus: the functions in `src/` carry contracts that Verus proves,
except the few marked `external_body`, which call `indexmap`, `itertools`,
`rand`, `uuid` or std and whose contracts are trusted.

- `src/data` — components (with their records: names, costs, sizes, power,
  crew and variants), hulls and their random configurations, missiles,
  seekers (countermeasure masks and matrices, seeker strategies and how they
  are defeated), munitions.
- `src/format` — the fleet file's values (keys, magazines, doctrines, weapon
  groups, component data, missile components, sockets and templates) and
  their XML form, with round-trip laws.
- `src/xml` — the XML tree the formats read and write.
- `src/fleet` — reading and rewriting fields of a fleet document: renaming a
  fleet as doubled and doubling its points.
- `src/duplicate` — doubling a fleet's ships: each copy gets a fresh key,
  fresh magazine keys and a freshly drawn hull configuration.
- `src/predicate` — the fleet generator's small predicate language: its
  tokens, parsers and tests of weapons, guidance settings, ship and missile
  equipment, and of whole ships and missiles (a ship test can be read from
  its text).
- `src/model`, `src/loadout`, `src/naming`, `src/text`, `src/utils`,
  `src/products` — the generator's model, loadouts, fleet names, decimal
  text, sizes, and cartesian products (through `itertools`).
- `app/` — the fleet duplicator program: file I/O and XML reading/writing
  with `quick-xml`, and the floating-point parts of a drawn hull
  configuration.
- `tests/` — tests of the library.
