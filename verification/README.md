# cqrs-postgres

An event store on PostgreSQL, with its decisions verified by Verus.

The library never talks to the database. Creating the tables, appending events and reading events
are sessions: a session starts with its first action, takes what came of the last one and says what
the next one is. An append holds its precondition and writes its events down by itself. Storing a
snapshot is one decision, fetching one is a query and the loading of its row.

- `src/version.rs`: event numbers, versions and the column they are stored in
- `src/aggregate.rs`: what an application supplies
- `src/reactor.rs`: reactions to events and the predicates that select events
- `src/statement.rs`: the SQL statements with their parameters
- `src/append.rs`, `src/read.rs`, `src/snapshot.rs`, `src/migrate.rs`: the operations
- `src/store.rs`: the store, a connection and a snapshot strategy
- `src/append_laws.rs`, `src/read_laws.rs`: what holds of every append and every read
- `src/tables.rs`: what a read gives back of what was written
- `src/todo.rs`: a sample aggregate
- `app/`: runs the store against a database, and the sample
