# pago_backend

The backend of a people-management service: organizations (tenants) with
their users, project reviews written by employees and their managers, review
scoring, goals, and compensation data uploaded as CSV files.

- `src/` is the verified library. It holds the decisions and record building
  behind every HTTP handler: which identity-provider attributes are written,
  how a bearer token is checked against the user pool's key set, who a
  request acts as (including administrators masquerading as users),
  how uploaded files are routed and their rows read (money texts cleaned to
  the number text an amount is read from), which scoring rule applies to each review answer, how scores are
  grouped, ordered and weighted, and the response each service error gets.
  Every function has a contract, and the laws that tie functions together are
  public proof functions.
- `app/` is the service around it: the actix-web routes and middleware, the
  diesel queries, the AWS (Cognito, S3) calls and the fetching of the key set, and the floating-point
  work the library cannot hold: the score formulas and reading a money
  amount's number text as dollars, times 100, truncated to cents.
- `tests/` runs the library on concrete inputs.
