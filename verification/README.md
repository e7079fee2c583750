# odbc_driver_rs

An ODBC 3.8 driver whose decisions are verified with Verus. A database back end
plugs in through the `DbConnectionFactory`, `DbConnection` and `ActiveStatement`
traits; the driver handles the ODBC side.

- `src/` is the verified library: return and attribute codes, the function
  bitmap of `SQLGetFunctions`, handle allocation and tagging, environment
  attributes, `SQLGetInfo`, connecting (connection-string parsing included),
  statements, column metadata, and the UTF-16 and C-string handling they share.
  Each function states in its contract what it returns for every input. Where a
  result comes from the database back end, the contract states what the back end
  was asked (which column, which database) and what the driver makes of every
  answer; the back-end traits carry `gives_*` / `opens` relations for that, which
  accept every answer unless a back end states otherwise. The properties that
  span functions are stated and proved as `lemma_*` proof functions.
- `app/` holds the exported `extern` entry points. Each reads its pointer
  arguments, hands plain values to the library and writes back what the library
  returns; it also holds the process-wide factory registry, the ODBC installer
  lookup and the log set-up.
- `tests/` runs the library on concrete inputs, with small in-memory back ends.
