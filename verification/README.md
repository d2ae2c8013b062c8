# crm

A small desktop tool for editing the schema and the rows of a PostgreSQL
database, with its logic verified by Verus.

- `src/` is the verified library: the table schemas and how they are read
  from `information_schema`, the log of pending schema changes and how each
  change is merged into it (`table_info`), the SQL statements that create,
  alter and drop tables (`sql`), the state machines of the screens
  (`forms`, `table_info_ui`, `tables_ui`, `table_data`, `components`),
  the log of unsaved row edits and the statements that save them
  (`row_changes`),
  filtering by regular expression (`filter`) and sorting (`test_utils`).
  `laws` states and proves properties of the change log that span several
  changes.
- `app/` is the iced application around it: the window and widgets, and
  the PostgreSQL access through sqlx. The screens hand it tasks (read the
  tables, run these statements, ...) and it hands them back what it read.
- `tests/` exercises the library on concrete values.

The database is named by the `DATABASE_URL` environment variable (or a
`.env` file).
