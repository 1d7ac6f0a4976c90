# Wikidata phonemes

A web editor, suitable for mobile phones, for the phonemes of languages on
Wikidata, used in the Wikidata IOLab activity.

- `src/` is the verified library: Wikidata identifiers and entity URIs
  (`wikidata`, `api`), decimal text and string search (`text`), sign-in
  decisions (`auth`), the status of languages and phoneme counts (`languages`,
  `status`, `activity`), phoneme queries (`phonemes`) and errors (`error`).
- `app/` is the server: HTTP clients, database, sessions, templates and routes.
- `tests/` exercises the library on concrete values.
