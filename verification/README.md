# sgo_email

A mailer that, for every company registered in a MariaDB database of
recipients, reads the pending occurrences of the company's own database,
renders one HTML e-mail per occurrence, sends it over SMTP and marks the
occurrence as sent, logging the ids sent and the errors met.

- `src/` is the verified library: the records and their text (`chunks`,
  `datetime`, `text`), the configuration (`ini`), the assembly of e-mails
  (`email`), the error type (`error`), the log lines (`report`), and the two
  state machines that decide what the program does next: `table` for one
  company's table and `operation` for the run over all companies.
- `app/` is the program: it performs the database queries, the rendering with
  tera, the SMTP sending and the file writes that the state machines ask for.
- `tests/` exercises the library with the real chrono, configparser and lettre.
