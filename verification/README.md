# openai_subscribed

Signs in to one or more ChatGPT subscriptions, keeps their credentials fresh, sends each request
for an account that can serve it, and shows how much of every quota is left.

`src/` is the library. Everything it decides or computes is stated in contracts and proved by
Verus; times, random bytes and answers of the service come in as arguments of the functions that
judge them.

| Modules | |
| --- | --- |
| `text`, `id_map`, `time`, `json`, `encoding` | texts, ordered maps, moments, JSON trees, and what comes from other crates |
| `credentials`, `oauth` | tokens, and how they are issued and renewed |
| `accounts`, `storage` | the accounts, what keeps them from serving requests, and how they are saved |
| `state`, `sign_in`, `refresh` | everything that is known at a moment, and how it changes |
| `models`, `requests` | the models on offer, and what requests to them look like |
| `failure`, `failover`, `stream` | what a failure says of an account, which account is tried next, and how answers are watched |
| `usage`, `usage_fetch`, `usage_view`, `usage_menu` | the usage of an account, from the service's report to the menu |
| `provider`, `configuration` | the provider of models, and its settings |

`app/` runs the library inside a host application: it sends requests, waits, stores secrets and
draws. `tests/` runs the library from outside.
