# sovd

Service-Oriented Vehicle Diagnostics (ISO 17978 SOVD): the data models, the
entity repository and diagnostic builder, the request logic of an SOVD server
and the gateway's simulated machine, with their contracts proved by Verus.

- `src/models` — SOVD data structures (data values, categories, errors, entities, versions).
- `src/diagnostic` — entities, the entity repository, service registry and diagnostic builder.
- `src/server` — API errors and status codes, query parsing, route and data handler logic, server configuration.
- `src/opensovd` — error conversion, bearer authentication decisions, the proxy's URL and header rules, configuration.
- `src/gateway` — the mock components and data services, command-line and configuration planning.
- `app/` — the `sovd-gateway` program: actix-web server, middleware, TLS, configuration files.
