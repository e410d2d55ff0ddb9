# odoo

A client for the XML-RPC interface of an Odoo server that reads the
attendance (`hr.attendance`) of one day, looks up the product sold for each
activity, and reports the worked hours as text or JSON. It can also list the
invoices (`account.move`) that have or have not been sent.

- `src/` is the library, verified with Verus: the settings of a run
  (`config`), the login and the request shapes (`master`, `invoice`, `rpc`),
  the reading of a day as a step function driven by the caller
  (`selection`, with the readers of each reply in `hr`), and the reports
  (`report`). Dates and times come from `chrono` and `iso8601` (`calendar`).
- `app/` is the command-line program and the C interface: argument parsing,
  the network calls, floating-point arithmetic on hours and prices, and JSON
  output.
- `tests/` exercises the library on concrete values.

The per-activity JSON report (`data_total_to_json`) lists one entry per
distinct activity, in the order the activities first appear. Each entry is
blank with zero hours and amount, as the program has always written it: the
sum it computes per activity is not kept.
