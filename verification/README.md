# authorize_policy

Authorize by policy: a declarative policy document of statements, each with an
effect (permit or deny) and the who, what and where it applies to. At the
decision deny wins, a permit that applies allows, and where nothing applies the
policy has no opinion.

- `src/` is the verified library: refusing blank and repeated names
  (`Document::load`), whether a statement applies (`Statement::applies`), the
  decision (`Document::decide`), Party identifiers, name patterns, and the laws
  of the policy (`src/laws.rs`).
- `app/` reads a document from its TOML text with `toml` and `serde`, reading
  actions and Parties with the library's `parse_action` and `PartyId::parse`,
  and hands the statements to `Document::load`.
- `tests/` runs the library on concrete documents.
