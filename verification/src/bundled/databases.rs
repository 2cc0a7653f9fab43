//! The study notes of the Databases module.
use vstd::prelude::*;
use crate::content::{ContentFile, ContentFileView};

verus! {
/// `cap-theorem.md`.
pub const CAP_THEOREM: &'static str = r##"---
title: "CAP Theorem"
tags: [cap-theorem, consistency, availability, partition-tolerance, distributed-systems]
difficulty: medium
estimated_time: 15min
---

## Overview

**CAP theorem** (Brewer's theorem, 2000) states that a distributed system can guarantee at most two of three properties simultaneously: **Consistency** (C), **Availability** (A), and **Partition tolerance** (P). In practice, network partitions are unavoidable in any distributed system — so the real choice is between C and A when a partition occurs.

**Consistency** in CAP means **linearizability**: every read receives the most recent write or an error. Every node in the cluster sees the same data at the same time. This is stronger than ACID consistency (which is about constraint validity). **Availability** means every request receives a non-error response — though it may not be the most recent data. The system never returns an error or times out. **Partition tolerance** means the system continues operating even if network partitions split nodes into groups that cannot communicate.

When a partition happens, a **CP system** sacrifices availability to maintain consistency: it refuses to serve reads/writes on nodes that cannot confirm they have the latest data (returns error or times out). Examples: HBase, Zookeeper, etcd, Redis Sentinel in strict mode. A **CA system** would require no partitions — impossible in a distributed system, so pure CA systems are only possible on a single machine (traditional RDBMS on one node). An **AP system** sacrifices consistency to maintain availability: nodes serve reads and writes even when partitioned, accepting that different nodes may return different values temporarily. Examples: Cassandra, DynamoDB, CouchDB. Data eventually converges when the partition heals.

## When to Use

- **CP**: financial transactions, configuration stores, distributed locks, anything where serving stale data is worse than refusing to serve at all. Use etcd, ZooKeeper, or CockroachDB.
- **AP**: user profiles, shopping carts, social feeds, DNS — where availability is more important than perfect consistency and stale reads are acceptable. Cassandra and DynamoDB are designed AP.
- **Single-node RDBMS**: technically CA because partitions aren't a concern, but this doesn't scale horizontally.

## Trade-offs & Gotchas

- **CAP is a spectrum, not a binary**: most real systems tune the CP/AP trade-off dynamically. Cassandra's tunable consistency (ONE, QUORUM, ALL) lets you shift toward CP (use QUORUM or ALL) or AP (use ONE) per operation.
- **"Consistency" in CAP != "Consistency" in ACID**: CAP consistency = linearizability (single-copy semantics). ACID consistency = constraint validity. These are different concepts with the same name — a common source of confusion in interviews.
- **Availability in CAP is absolute**: a system that returns stale data is "available" in CAP terms. A system that returns a timeout is not. This is a weaker definition than SLA-based availability (99.9% uptime).
- **CAP doesn't cover latency**: a CP system can be "available" (not returning errors) while having 10-second response times during a partition. PACELC extends CAP to address this.
- **Partition tolerance isn't optional**: network partitions happen in all distributed systems — packet loss, NIC failures, rack switches, datacenter link drops. Any system claiming CA is either single-node or misusing the term.
- **BASE vs ACID**: AP systems are often described as **BASE** — **B**asically **A**vailable, **S**oft state, **E**ventually consistent. This is the philosophical counterpart to ACID for distributed NoSQL systems.

## Architecture Diagram

```
CAP Triangle:
              Consistency (C)
                   /\
                  /  \
                 / CP \
                /      \
               /--------\
              / CA  | AP \
             /      |     \
        Availability(A) -- Partition Tolerance(P)

  CA: Traditional RDBMS (single node) - no partitions to tolerate
  CP: HBase, ZooKeeper, etcd, Redis (strict) - refuse if uncertain
  AP: Cassandra, DynamoDB, CouchDB - serve stale, reconcile later

Network Partition Scenario:
  [Node A] ===PARTITION=== [Node B]
  Client writes to A: x = 5
  Client reads from B: x = ???

  CP choice: B returns ERROR (consistent, not available)
  AP choice: B returns x = 4 (stale, available)
  After partition heals: AP systems reconcile x -> 5

Cassandra Tunable Consistency:
  Write consistency ONE   -> fast, AP behavior (1 node confirms)
  Write consistency QUORUM-> balanced, partial CP (majority confirms)
  Write consistency ALL   -> slow, CP behavior (all nodes confirm)
```

## Key Points for Interviews

- The real CAP choice is C vs A during a partition — P is not optional for any distributed system.
- CAP Consistency (linearizability) is NOT the same as ACID Consistency (constraints). Clarify which you mean.
- Most AP systems offer tunable consistency — you can dial toward CP per-request (Cassandra QUORUM, DynamoDB strongly consistent reads).
- Know that CAP ignores latency — introduce PACELC as the more practical extension when the interviewer is ready to go deeper.
- BASE (Basically Available, Soft state, Eventually consistent) is the AP counterpart to ACID.
- Real-world examples: ZooKeeper/etcd = CP (used for leader election precisely because of this). Cassandra/DynamoDB = AP (used for user data because availability matters more).
- Don't just recite the triangle — say what the trade-off means in operational terms: "during a partition, a CP system's nodes will refuse requests rather than risk serving stale data."
"##;
/// `consistency-models.md`.
pub const CONSISTENCY_MODELS: &'static str = r##"---
title: "Consistency Models"
tags: [consistency, eventual-consistency, strong-consistency, linearizability, causal-consistency, read-your-writes, monotonic-reads]
difficulty: hard
estimated_time: 20min
---

## Overview

A **consistency model** is a contract between a distributed system and its clients, defining what guarantees a client can expect when reading data that may have been written by another client on a different node. Consistency models form a hierarchy — stronger models provide more guarantees but cost more in latency and availability. Weaker models allow replicas to diverge temporarily in exchange for speed.

**Strong consistency** (linearizability) is the gold standard. Every operation appears to take effect instantaneously at a single point in time, and every client sees the same total order of operations. After a write completes, any subsequent read from any node returns that value. This is what most developers intuitively expect but is expensive to implement — it requires coordination (quorum acknowledgements, consensus protocols) that adds latency. Used by: etcd, ZooKeeper, Spanner, CockroachDB, and SQL databases with synchronous replication.

**Causal consistency** is weaker than linearizability but stronger than eventual consistency. If operation A causally precedes operation B (A happened before B, or A's result influenced B), then any process that sees B must also see A. Operations with no causal relationship may be observed in any order. Example: if Alice posts a message and Bob replies to it, anyone who sees Bob's reply must also see Alice's post. Causal consistency can be implemented without global coordination, making it much faster than linearizability while still preserving meaningful ordering guarantees. Used by: MongoDB causal sessions, some Dynamo configurations.

**Eventual consistency** is the weakest useful model: if no new writes are made to a key, all replicas will eventually converge to the same value. No timing guarantee is given — convergence could happen in milliseconds or minutes. Reads may return stale data. Writes on different replicas may conflict and must be resolved (LWW, CRDTs, application merge). This is the default for AP systems (Cassandra with ONE, DynamoDB eventually consistent reads). Two practical session guarantees that sit between eventual and causal: **Read-your-writes** — after a client writes a value, that same client always reads its own write (even if other clients may not). Prevents the jarring experience of posting a comment and then not seeing it. **Monotonic reads** — a client never observes data going backward in time; if a client reads version 5, it will never subsequently read version 4 from a more lagged replica.

## When to Use

- **Linearizability**: distributed locks, leader election, financial transfers, inventory decrement (prevent overselling). ZooKeeper/etcd for coordination; Spanner/CockroachDB for globally consistent SQL.
- **Causal consistency**: social feeds (replies must appear after the post they reply to), collaborative editing, comment threads. MongoDB causal sessions are a practical implementation.
- **Read-your-writes**: any user-facing write — profile updates, post creation, preference changes. Users must see their own actions immediately or trust is broken. Implement by routing a user's reads to the leader (or a replica with a sequence number >= their last write).
- **Monotonic reads**: preventing time-travel reads in a multi-replica setup. Implement via session affinity to a single replica, or by tagging reads with a minimum replication sequence number.
- **Eventual consistency**: counters, analytics, recommendation data, shopping carts (Dynamo paper), any data where correctness of individual values matters less than availability and throughput.

## Trade-offs & Gotchas

- **Consistency is not binary**: there is a rich spectrum from eventual to linearizable. Picking the right model for each data type in your system is a design skill, not just trivia.
- **Eventual consistency surprises**: a user updates their profile photo, then refreshes and sees the old photo. This is "working as designed" in an AP system — but users find it confusing. Read-your-writes solves this specific case.
- **Stale reads under eventual consistency**: with Cassandra ONE read consistency, a read may hit a replica that hasn't received the latest write yet. The window is typically milliseconds but can grow during node recovery.
- **CRDTs (Conflict-free Replicated Data Types)** are a principled way to achieve eventual consistency without explicit conflict resolution: counters (G-Counter, PN-Counter), sets (G-Set, 2P-Set), registers (LWW-Register). The data structure is designed so that concurrent updates always merge without conflict. Used in Redis, Riak, collaborative document editors.
- **Monotonic writes vs monotonic reads**: these are different guarantees. Monotonic writes means a client's writes are applied in order (if you write v1 then v2, no replica applies v2 before v1). Monotonic reads means reads never go backward in time.
- **Read-your-writes is hard across devices**: if a user writes on their phone and immediately reads on their desktop (different sessions), standard read-your-writes implementations (session affinity) don't help. You need a version-token approach: write returns a token; all subsequent reads include that token and are satisfied only by up-to-date replicas.

## Architecture Diagram

```
Consistency Model Hierarchy (stronger -> weaker):
  Linearizability (Strong Consistency)
      |  - global total order of all ops
      |  - any read returns latest write
      v
  Sequential Consistency
      |  - all nodes see same op order
      |  - not necessarily real-time
      v
  Causal Consistency
      |  - causally related ops ordered
      |  - concurrent ops may be unordered
      v
  Read-Your-Writes  /  Monotonic Reads  (session guarantees)
      |  - weaker than causal, scoped to single client
      v
  Eventual Consistency
      - replicas converge "eventually"
      - no ordering guarantee at all

Read-Your-Writes Implementation:
  Option 1: Route user reads to leader after any write
  Option 2: Replica must have replication_lag < threshold
  Option 3: Write returns sequence number S;
            read blocked until replica reaches S

Causal Consistency Example:
  Alice: POST  "Hello"       (event A)
  Bob:   REPLY "Hi Alice"    (event B, caused by A)

  Valid:   Reader sees [A, B]  (correct causal order)
  Valid:   Reader sees [A]     (B not yet propagated)
  INVALID: Reader sees [B]     (reply without the post)

CRDT Counter (PN-Counter):
  Node1: {inc: 3, dec: 1}
  Node2: {inc: 5, dec: 2}
  Merge: max(inc) per node, max(dec) per node -> value = (3+5) - (1+2) = 5
  No conflict, commutative, associative merge
```

## Key Points for Interviews

- Know the hierarchy: linearizability > causal > monotonic reads/read-your-writes > eventual consistency.
- Read-your-writes is the minimum viable consistency for user-facing writes. Explain how to implement it (route to leader, or replication watermark tokens).
- Causal consistency is often the sweet spot: stronger than eventual, achievable without global coordination.
- Name CRDTs as the principled solution to conflict-free eventual consistency. Give an example (PN-Counter, G-Set).
- "Eventual consistency" is not a single thing — stale reads in a Cassandra cluster with ONE may resolve in 1ms; in a geo-distributed system during a partition it may be minutes. Qualify the bound.
- Distinguish between session guarantees (per-client) and system-wide guarantees. Most AP systems provide session-level read-your-writes without guaranteeing it system-wide.
"##;
/// `cqrs-event-sourcing.md`.
pub const CQRS_EVENT_SOURCING: &'static str = r##"---
title: "CQRS & Event Sourcing"
tags: [cqrs, event-sourcing, command-query, event-store, projections, eventual-consistency, microservices]
difficulty: hard
estimated_time: 25min
---

## Overview

**CQRS (Command Query Responsibility Segregation)** separates the write model (**commands** — intents to change state) from the read model (**queries** — asking for current state). In a traditional CRUD system, the same data model and often the same database table serve both reads and writes. CQRS uses different models — and often different data stores — optimized independently for their respective workloads. The write side enforces business rules and maintains consistency. The read side (projections, read models, materialized views) is denormalized and optimized for query access patterns.

**Event Sourcing** takes CQRS further by replacing mutable state with an append-only **event log** as the source of truth. Instead of storing the current state of a record, you store every event that ever happened to it. Current state is derived by replaying events from the beginning (or from a snapshot). An `Order` is not a row with `status = 'shipped'`; it is the sequence of events: `OrderCreated`, `ItemAdded`, `PaymentProcessed`, `OrderShipped`. The event log is immutable — events are never updated or deleted. This makes auditing trivial, enables temporal queries ("what was the state of this order at 2pm yesterday?"), and allows replaying events to rebuild projections or populate new read models.

These two patterns are often used together but are independent. CQRS without event sourcing: separate read/write models using the same underlying DB with read replicas and denormalized views. Event sourcing without CQRS: one unified model built from event replay. Together, they are a powerful combination: commands emit events to an event store, and read-side projectors subscribe to those events and update purpose-built read models (e.g., a Redis cache, an Elasticsearch index, a relational reporting table). Read models are **eventually consistent** with the event log — there is an inherent lag between when a command is processed and when read models are updated.

## When to Use

- **CQRS**: read-heavy systems where reads vastly outnumber writes; systems with many different "views" of the same data (admin dashboard, mobile app, reporting); domain models where write-side complexity (invariants, aggregates) is high.
- **Event Sourcing**: systems requiring a full audit trail (financial, healthcare, compliance); systems that need to replay history to answer ad-hoc questions; event-driven microservices architectures using Kafka or EventBridge; systems where state reconstruction from events provides a competitive advantage (undo/redo, temporal queries).
- **Both together**: complex domain-driven design (DDD) systems with rich aggregate behavior, where the read-side query diversity is high and write-side correctness is paramount.
- **Avoid when**: the domain is simple CRUD with no complex business rules; team lacks distributed systems experience; eventual consistency on reads is unacceptable; audit history is not required.

## Trade-offs & Gotchas

- **Eventual consistency on reads**: after a command is processed and an event is emitted, read models update asynchronously. A user who just placed an order may briefly see their order count as unchanged. This requires explicit UX handling (optimistic UI updates, "your order is being processed" states) and is often a surprise to teams used to CRUD.
- **Event schema evolution is hard**: events are stored forever and must be readable in the future. Adding, renaming, or removing fields in an event schema requires a migration strategy: versioned event types (`OrderShippedV2`), upcasting (transforming old events to new format on read), or immutable event contracts. Never silently change event structure.
- **Projection rebuild cost**: if you add a new read model or fix a bug in a projection, you must replay all historical events from the beginning. For large event stores (billions of events), this can take hours or days. Snapshots (periodic checkpoints of aggregate state) reduce replay time by starting from the snapshot rather than event 0.
- **Complexity tax**: CQRS/ES adds significant infrastructure: event store, message broker (Kafka, RabbitMQ), projectors, snapshot management, eventual consistency handling. This is not appropriate for simple CRUD services.
- **Distributed transaction pitfall**: a command handler should emit events atomically — either the aggregate state changes AND the event is written, or neither. The **Outbox pattern** solves this: write the event to an `outbox` table in the same DB transaction as the aggregate update, then a separate process reliably publishes the event to the broker.
- **Idempotency**: projectors consuming events must be idempotent — if an event is delivered twice (at-least-once delivery guarantees), applying it twice must produce the same result. Track processed event IDs in the read model store.

## Architecture Diagram

```
Traditional CRUD:
  [Client] --> [Service] --> [DB Table] <-- [Client reads same table]
  One model for reads and writes.

CQRS (separate read/write):
  Write Side:                      Read Side:
  [Client]                         [Client]
     |                                |
  [Command]                        [Query]
     |                                |
  [Write Model / Aggregate]        [Read Model]
     |                             (denormalized, cache, search index)
  [Write DB]    ---sync/async-->   [Read DB]

Event Sourcing + CQRS:
  [Client]
     |
  [Command: PlaceOrder]
     |
  [Order Aggregate]
     |--- validate invariants
     |--- emit: OrderPlaced event
     |
  [Event Store]  <-- append-only log
     |
     +---> [Projector: OrderSummaryView] --> [Read DB: order summaries]
     +---> [Projector: InventoryView]    --> [Redis: stock counts]
     +---> [Projector: AnalyticsStream]  --> [Kafka: analytics pipeline]

Event Log for Order #42:
  t=1  OrderCreated    { order_id: 42, user_id: 7 }
  t=2  ItemAdded       { item: "book", qty: 2 }
  t=3  PaymentReceived { amount: 39.98, method: "card" }
  t=4  OrderShipped    { tracking: "1Z999..." }
  Current state = replay of all events.

Outbox Pattern (atomic event emission):
  BEGIN TRANSACTION
    UPDATE orders SET status='shipped' WHERE id=42
    INSERT INTO outbox(event) VALUES ('{"type":"OrderShipped",...}')
  COMMIT
  [Outbox Poller] reads outbox --> publishes to Kafka --> deletes row
```

## Key Points for Interviews

- CQRS separates write (command) and read (query) models, optimizing each independently. It does not require event sourcing.
- Event sourcing stores events, not state. Current state is derived by replaying events. This makes audit, temporal queries, and projection rebuilds straightforward.
- Eventual consistency is inherent — read models lag behind the event log. Design your UX and API contracts around this.
- Event schema evolution is the hardest operational problem. Mention versioned events and upcasting.
- The Outbox pattern is the correct way to emit events atomically alongside a state change.
- Snapshots reduce event replay cost for large aggregate histories.
- CQRS/ES is a DDD pattern — it shines in domains with rich business logic and audit requirements. Avoid it for simple CRUD services where it adds complexity without payoff.
"##;
/// `databases-compared.md`.
pub const DATABASES_COMPARED: &'static str = r##"---
title: "Databases Compared"
tags: [postgresql, mysql, mongodb, cassandra, dynamodb, redis, hbase, database-selection]
difficulty: medium
estimated_time: 25min
---

## Overview

Choosing a database is one of the highest-leverage architectural decisions. The right database fits your data model, access patterns, consistency requirements, and operational constraints. The wrong one becomes the root cause of every major incident. This guide compares the most common databases you will encounter in FAANG/MANGA system design interviews.

**PostgreSQL** is the gold-standard open-source relational database. MVCC for non-blocking reads, full ACID transactions, advanced indexing (B-tree, GIN, GiST, BRIN), JSONB for semi-structured data, and a rich extension ecosystem (TimescaleDB for time-series, PostGIS for geospatial, Citus for sharding). Scales well vertically; read replicas for read scale; Citus or manual sharding for write scale. Default choice for new transactional applications.

**MySQL (InnoDB)** is the dominant web-application database. Similar to PostgreSQL in capabilities but with a simpler replication story (binlog-based, widely supported by managed services). Slightly weaker on SQL standards compliance and advanced features. Default choice for many LAMP-stack and high-read web apps. Used at Facebook (with heavy customization), GitHub, and Twitter at scale.

**MongoDB** is the leading document database. Schema-flexible JSON documents, powerful aggregation pipeline, support for multi-document ACID transactions (v4.0+), and horizontal sharding (MongoDB Atlas). Excels at hierarchical and polymorphic data models. Common pitfall: treating it as a relational DB and ending up with deeply nested documents and no indexes. Best fit: product catalogs, user profiles, content management, rapid-iteration applications.

## When to Use

- **PostgreSQL**: transactional workloads, complex queries with JOINs, financial systems, SaaS apps, anything where correctness matters and you want SQL. First choice for greenfield projects.
- **MySQL**: web apps already on the MySQL ecosystem, read-heavy workloads with simple queries, teams with existing MySQL expertise.
- **MongoDB**: flexible/variable schemas, document-oriented data, when the app iterates on schema frequently, when you want to avoid joins by embedding related data.
- **Cassandra**: massive write throughput (millions of writes/sec), time-series data, wide-row data (activity feeds, sensor data), always-on availability across datacenters. Write path is very fast; read path requires careful data modeling.
- **DynamoDB**: fully managed AWS key-value/document store, single-digit millisecond latency at any scale, serverless/ops-free operations, pay-per-request pricing. Best for: AWS-native apps with predictable key-value access patterns, gaming, IoT, session stores.
- **Redis**: in-memory data structure store. Use as a cache (the primary use case), session store, rate limiter, leaderboard (sorted sets), pub/sub bus, distributed lock. Not a primary database (data fits in RAM; persistence is optional).
- **HBase**: wide-column store on top of HDFS/Hadoop. Random read/write on very large datasets (petabyte scale), Hadoop ecosystem integration. Used for: time-series, log storage, Facebook Messenger (historically). Operationally complex; prefer Cassandra or BigTable for new projects unless you are already deep in the Hadoop ecosystem.

## Trade-offs & Gotchas

- **PostgreSQL vs MySQL**: PostgreSQL has better SQL standards compliance, richer index types, and `JSONB`. MySQL has simpler replication and is more widely supported by legacy tooling. For new systems, choose PostgreSQL.
- **MongoDB schema flexibility**: convenient early on, painful at scale when documents diverge. Use JSON Schema validation or ODM libraries to enforce structure. Aggregation pipelines are powerful but can be opaque.
- **Cassandra data modeling**: design tables around queries, not the domain. Create one table per query pattern. A Cassandra query without a partition key is a full cluster scan — the equivalent of a table scan, at potentially petabyte scale.
- **DynamoDB hot partitions**: if all your traffic hits the same partition key (e.g., one user ID dominates all writes), that partition becomes a bottleneck. Use write sharding (add a random suffix to the key) or distribute load across multiple keys.
- **Redis memory limits**: Redis stores all data in RAM. Set `maxmemory` and an eviction policy. Do not use Redis as a primary store for data that cannot be reconstructed from another source, unless you enable AOF/RDB persistence and size your instances accordingly.
- **HBase operational burden**: requires ZooKeeper, HDFS, region servers — a full Hadoop stack. Operationally expensive. Google Cloud Bigtable and HBase-compatible managed services reduce this burden.

## Architecture Diagram

```
Quick Reference Matrix:
  Database    | Type           | Model         | Consistency  | Best For
  ------------+----------------+---------------+--------------+--------------------
  PostgreSQL  | Relational     | Tables/SQL    | ACID         | Transactional apps
  MySQL       | Relational     | Tables/SQL    | ACID         | Web apps, LAMP
  MongoDB     | Document       | JSON docs     | Tunable      | Flexible schema
  Cassandra   | Wide-Column    | Rows/columns  | Tunable AP   | High write volume
  DynamoDB    | Key-Value/Doc  | Items/JSON    | Tunable AP   | AWS serverless
  Redis       | In-Memory      | Structures    | None (cache) | Cache, sessions
  HBase       | Wide-Column    | Rows/columns  | CP           | Hadoop ecosystem

Write/Read Throughput Rough Scale:
  Redis       ~1,000,000 ops/sec  (in-memory)
  Cassandra   ~100,000s writes/sec/node (disk, tunable)
  DynamoDB    ~unlimited (managed, auto-scaled)
  PostgreSQL  ~10,000-50,000 writes/sec (single node, NVMe)
  MySQL       ~10,000-50,000 writes/sec (similar)
  MongoDB     ~10,000-50,000 writes/sec (single node)
  HBase       ~10,000-100,000 writes/sec/node

Typical Polyglot Architecture:
  [Source of Truth: PostgreSQL]
        |
        +--> [Redis] (cache, sessions, rate limits)
        |
        +--> [Elasticsearch] (full-text search)
        |
        +--> [Cassandra/DynamoDB] (event/activity data)
        |
        +--> [MongoDB] (product catalog, CMS content)

Cassandra vs DynamoDB:
  Cassandra:  self-hosted or Astra (managed), CQL (SQL-like),
              tunable consistency, cross-region replication built-in,
              no vendor lock-in
  DynamoDB:   AWS-only, managed/serverless, single-table design,
              GSIs for alternate access patterns, Streams for CDC,
              per-request pricing
```

## Key Points for Interviews

- Start system design answers by stating your access patterns, then map them to database types.
- PostgreSQL is the safe default for anything transactional. Justify any deviation.
- Cassandra's golden rule: design your schema around your queries. One table per query pattern.
- Redis is a cache and auxiliary store, not a primary database — unless your data fits in RAM and you're OK with eventual durability.
- DynamoDB single-table design (all entity types in one table, overloaded partition/sort keys) is a powerful pattern that enables complex access patterns with a single managed service.
- Know the operational complexity order: DynamoDB (managed) < MongoDB Atlas < Cassandra (self-hosted) < HBase (Hadoop required).
- In a FAANG interview, saying "I'd use DynamoDB for X because..." is fine. Also know why you might not (vendor lock-in, cost at scale, limited query flexibility without GSIs).
- Polyglot persistence is common at scale — be ready to explain why you'd use multiple databases in one system and how you'd keep them in sync (CDC, event streaming, dual writes with reconciliation).
"##;
/// `indexing.md`.
pub const INDEXING: &'static str = r##"---
title: "Database Indexing"
tags: [indexing, b-tree, hash-index, composite-index, covering-index, query-optimization]
difficulty: medium
estimated_time: 20min
---

## Overview

An **index** is a separate data structure that the database maintains alongside a table to speed up lookups. Without an index, finding rows requires a **full table scan** — O(n) in the number of rows. With an index, lookups become O(log n) for tree-based indexes or O(1) amortized for hash indexes. The cost is additional storage and write overhead: every `INSERT`, `UPDATE`, or `DELETE` must also update every relevant index.

The **B-tree index** is the default in virtually every relational database (PostgreSQL, MySQL InnoDB, SQLite). A B-tree is a self-balancing tree where each node holds multiple keys and pointers. Leaf nodes store the actual indexed values plus a pointer (row ID or primary key) to the heap row. B-trees support equality lookups (`WHERE id = 5`), range scans (`WHERE age BETWEEN 20 AND 30`), prefix matching (`WHERE name LIKE 'Al%'`), and `ORDER BY` without an extra sort step. Tree height stays shallow (typically 3–4 levels) even for tables with hundreds of millions of rows.

**Hash indexes** map each key to a bucket using a hash function. Lookups are O(1) but hash indexes only support equality — no range queries, no sorting. PostgreSQL supports explicit hash indexes; MySQL's MEMORY engine uses hash indexes by default. In practice, B-trees are so fast for equality that hash indexes offer marginal benefit and are rarely used in production OLTP systems. Redis and in-memory hash tables are the natural home for hash-based lookups.

**Composite indexes** (multi-column indexes) cover multiple columns in a defined order. A composite index on `(last_name, first_name)` can satisfy queries filtering on `last_name` alone or on both columns, but **not** on `first_name` alone — the **leftmost prefix rule**. Ordering columns by selectivity (most selective first) is a common heuristic, but access pattern always wins: put the equality columns first, then range columns. **Covering indexes** include all columns a query needs, so the database never touches the main table (heap) at all — the index is the answer. This eliminates the extra random I/O of the row fetch.

## When to Use

- **B-tree**: almost always — range queries, sorting, prefix matching, foreign key lookups. The safe default.
- **Hash index**: in-memory tables with pure equality lookups and no range queries. Rare in disk-based OLTP.
- **Composite index**: when queries filter or sort on multiple columns together. Analyze your most frequent slow queries with `EXPLAIN` / `EXPLAIN ANALYZE`.
- **Covering index**: high-frequency read queries on large tables where you want to eliminate all heap I/O. Common in reporting queries that select a small, known set of columns.
- **Partial index** (PostgreSQL): index only rows matching a condition — e.g., `WHERE status = 'pending'`. Keeps the index small and fast for a common selective query.
- **Expression/functional index**: index the result of a function — e.g., `LOWER(email)` for case-insensitive lookups.

## Trade-offs & Gotchas

- **Index bloat**: every write updates all indexes on a table. A table with 10 indexes pays a 10x write amplification penalty for inserts. Keep indexes lean; drop unused ones.
- **Index selectivity**: an index on a boolean column (`is_active`) with 99% `true` is nearly useless — the optimizer will prefer a table scan. High-cardinality columns (user IDs, timestamps, emails) benefit most from indexing.
- **Leftmost prefix rule**: a composite index on `(a, b, c)` is usable for queries filtering on `a`, `(a, b)`, or `(a, b, c)` — but not `b` alone or `(b, c)`. This is one of the most common indexing mistakes in interviews.
- **Index-only scans vs heap fetches**: even with an index, if the query needs columns not in the index, the DB must fetch the heap row (random I/O). Covering indexes eliminate this entirely.
- **Stale statistics**: the query planner uses table statistics to choose between index scan and sequential scan. Run `ANALYZE` (Postgres) or `OPTIMIZE TABLE` (MySQL) after large data loads to keep statistics fresh. A planner that thinks a table has 1,000 rows when it has 10 million will make catastrophically bad plans.
- **Index on foreign keys**: in PostgreSQL, foreign key columns are **not** automatically indexed — unlike MySQL InnoDB. Missing FK indexes cause full child-table scans on every parent row delete, which is a common performance pitfall.

## Architecture Diagram

```
B-Tree Index on users.last_name:
                  [M]
                 /    \
          [F..L]        [N..Z]
          /    \         /    \
      [F][G] [H..L]   [N][O] [P..Z]
        |       |       |       |
      rows    rows    rows    rows   <-- leaf nodes: (key, row_ptr)

  Supports: equality, range, sort, prefix (LIKE 'Sm%')
  Does NOT help: LIKE '%mith' (leading wildcard)

Composite Index (last_name, first_name):
  Query: WHERE last_name = 'Smith'              -> uses index (prefix match)
  Query: WHERE last_name = 'Smith'
           AND first_name = 'Alice'             -> uses index (full match)
  Query: WHERE first_name = 'Alice'             -> CANNOT use index (skips prefix)

Covering Index Example:
  Table: orders(id, user_id, status, amount, created_at)
  Index: CREATE INDEX idx_cover ON orders(user_id, status, amount);
  Query: SELECT amount FROM orders WHERE user_id=1 AND status='paid';
  -> Index contains all needed columns: NO heap fetch (index-only scan)

Hash Index:
  Key --> hash(key) --> bucket --> value
  O(1) lookup. No range, no sort.
```

## Key Points for Interviews

- Know the leftmost prefix rule cold — it comes up constantly. A composite index on `(a, b)` does not help a query filtering only on `b`.
- Default to B-tree. Only reach for other index types when you have a specific justification.
- A covering index is a powerful optimization: frame it as "can I make the index the entire answer to the query?"
- `EXPLAIN ANALYZE` is your best friend — always mention it when discussing query optimization. Seq Scan on a large table = missing index.
- Index writes cost money. For write-heavy tables, fewer, more strategic indexes beat many narrow ones.
- Partial indexes (filtering on a condition) keep index size small — great for soft-delete patterns (`WHERE deleted_at IS NULL`).
- Foreign key columns in PostgreSQL need manual indexes. This is a classic production gotcha.
"##;
/// `pacelc.md`.
pub const PACELC: &'static str = r##"---
title: "PACELC Theorem"
tags: [pacelc, cap-theorem, latency, consistency, availability, partition, trade-offs]
difficulty: hard
estimated_time: 15min
---

## Overview

**PACELC** (Daniel Abadi, 2012) extends CAP theorem by addressing its most significant omission: **latency**. CAP only characterizes system behavior during a network partition. PACELC asks: what about normal operation when there is no partition? The theorem states: if a Partition occurs (P), the system must trade off between Availability (A) and Consistency (C) — just as CAP says. Else (E), when the system is running normally, the system must trade off between Latency (L) and Consistency (C).

The latency-consistency trade-off is always present, even without failures. Achieving **strong consistency** (linearizability) in a distributed system requires coordination — waiting for acknowledgements from multiple nodes before confirming a write. That coordination takes time: network round trips, quorum acknowledgements, consensus protocol messages. **Lower latency** means reducing that coordination, which means accepting weaker consistency guarantees (a write may be acknowledged before all replicas confirm it, so reads may briefly see stale data). This is the E/L trade-off that CAP completely ignores.

PACELC classification uses the format **PA/EL** or **PC/EC** etc. **PA/EL systems** (Partition Availability, Else Latency): prioritize availability during partitions and low latency during normal operation. Examples: Cassandra, DynamoDB, Riak. Writes are acknowledged quickly from a small number of replicas; consistency is eventually achieved. **PC/EC systems** (Partition Consistency, Else Consistency): prioritize consistency in both modes. Examples: HBase, Spanner, VoltDB. Writes require coordination and may be slower but data is always consistent. **PC/EL** and **PA/EC** represent mixed strategies — some systems are configurable (Cassandra with tunable consistency can behave as PA/EL or PC/EC depending on the quorum setting chosen).

## When to Use

- **PA/EL (Cassandra, DynamoDB defaults)**: user activity feeds, shopping carts, messaging, any workload where a few milliseconds of write latency matter and brief inconsistency is tolerable.
- **PC/EC (Spanner, VoltDB, etcd)**: financial ledgers, distributed locking, configuration management, inventory systems where correctness is paramount and latency is a secondary concern.
- **PC/EL (MySQL Cluster, some DynamoDB configs)**: systems that need partition safety but can trade latency for consistency in normal operation — rare in practice.
- Use PACELC vocabulary in interviews to signal that you know CAP is incomplete and that you think about latency in the normal (non-partitioned) case.

## Trade-offs & Gotchas

- **CAP is a subset**: PACELC subsumes CAP. Every system has a PACELC classification; CAP only describes half of it (the P branch). When an interviewer asks about CAP, you can score points by noting the E branch.
- **Tunable systems complicate classification**: Cassandra with `QUORUM` consistency behaves as PC/EC; with `ONE` it behaves as PA/EL. The PACELC label applies to the default/typical configuration, not every possible setting.
- **Latency vs consistency is always present**: even on a single datacenter with no partitions, achieving linearizable reads requires checking that your read reflects the latest committed write — which may mean a round trip to confirm with a replica. Skip that, and you get lower latency but potentially stale reads.
- **Geo-distribution amplifies the E trade-off**: if replicas span continents, achieving EC (Else Consistency) requires waiting for a write to be acknowledged in multiple regions — adding 50–200ms of latency per write. Spanner uses GPS-synchronized clocks (TrueTime) to minimize this overhead.
- **Eventual consistency is not chaos**: in PA/EL systems, "eventually consistent" means replicas converge within milliseconds to seconds under normal conditions — not arbitrary delay. The window of inconsistency is bounded and predictable.
- **Write path vs read path**: PACELC trade-offs often apply differently to reads and writes. A system might acknowledge writes fast (EL) but require a quorum read to guarantee freshness (EC for reads). Read your database's documentation carefully.

## Architecture Diagram

```
PACELC Decision Tree:
                      System
                        |
              +---------+---------+
              |                   |
         Partition?            No Partition
              |                   |
    +---------+--------+   +------+------+
    |                  |   |             |
  Availability    Consistency  Latency  Consistency
  (PA)            (PC)         (EL)     (EC)

PACELC Classification of Common Systems:
  System        | P choice | E choice | Notes
  --------------+----------+----------+---------------------------
  Cassandra     | A (PA)   | L (EL)   | default; tunable to PC/EC
  DynamoDB      | A (PA)   | L (EL)   | default; strongly consistent reads = PC/EC
  Riak          | A (PA)   | L (EL)   | Dynamo-style
  HBase         | C (PC)   | C (EC)   | HDFS-backed, strong consistency
  Spanner       | C (PC)   | C (EC)   | TrueTime, external consistency
  VoltDB        | C (PC)   | C (EC)   | in-memory, ACID
  MySQL (InnoDB)| C (PC)   | C (EC)   | single-leader, sync replication
  etcd/ZooKeeper| C (PC)   | C (EC)   | Raft/Zab consensus

Latency Cost of Consistency (E branch):
  EL (low latency): write -> 1 node ACK -> return   ~1ms
  EC (consistency): write -> quorum ACK -> return   ~5-20ms
  EC geo-dist:      write -> multi-DC ACK -> return ~50-200ms
```

## Key Points for Interviews

- Lead with PACELC when discussing distributed database trade-offs — it's more precise than CAP alone.
- The E/L trade-off is always present, even in normal operation. Consistency costs latency.
- Know the PACELC classification of at least four systems: Cassandra (PA/EL), Spanner (PC/EC), DynamoDB (PA/EL default), etcd (PC/EC).
- Tunable consistency (Cassandra) means the PACELC classification shifts per operation — a powerful design point.
- Google Spanner's TrueTime API is the most famous attempt to reduce EC latency by using GPS/atomic clocks to bound clock uncertainty, enabling external consistency with minimal coordination overhead.
- In system design interviews, after describing CAP, add: "PACELC extends this — even without partitions, strong consistency requires coordination that adds latency. That's why Cassandra defaults to eventual consistency: it prioritizes low write latency in normal operation."
"##;
/// `replication.md`.
pub const REPLICATION: &'static str = r##"---
title: "Database Replication"
tags: [replication, leader-follower, multi-leader, leaderless, quorum, consistency, high-availability]
difficulty: medium
estimated_time: 20min
---

## Overview

**Replication** keeps copies of the same data on multiple nodes. Goals: high availability (survive node failures), read scalability (serve reads from replicas), and geographic distribution (serve users from nearby nodes). Every replication strategy forces a trade-off between consistency, availability, and write throughput.

**Leader-follower** (primary-replica, master-slave) is the most common model. All writes go to a single leader, which writes to its log (WAL in Postgres, binlog in MySQL). Followers replay the log asynchronously or synchronously. **Synchronous replication** guarantees the follower is up-to-date before the write is acknowledged — zero data loss but higher write latency. **Asynchronous replication** acknowledges writes immediately and replicates in the background — low latency but a follower lag window where a leader crash causes data loss. Most systems use semi-synchronous: one synchronous follower, the rest async. Reads can be served from followers, but clients may see stale data (replication lag).

**Multi-leader** (active-active, multi-master) allows writes on multiple nodes simultaneously. Each leader replicates its writes to peers. Benefit: write availability even if a datacenter is down; lower write latency for geographically distributed users. Cost: **write conflicts** — two leaders can concurrently update the same row, and the system must resolve the conflict (last-write-wins, application-defined merge, or CRDT). Multi-leader is complex to reason about and is generally avoided unless geographic write locality is a hard requirement (e.g., CockroachDB, Google Spanner).

**Leaderless replication** (Dynamo-style, used by Cassandra and DynamoDB) has no designated leader. Any node accepts writes. Reads and writes are sent to multiple nodes simultaneously using **quorum** reads and writes. With N replicas, a write quorum W and read quorum R, data is consistent when W + R > N. The typical setup is N=3, W=2, R=2 — meaning reads and writes each contact a majority. If a node is unavailable, the system still makes progress as long as quorum is met. Anti-entropy processes (Merkle trees, read repair, hinted handoff) reconcile diverged replicas in the background.

## When to Use

- **Leader-follower (sync)**: financial systems, anything where data loss is unacceptable. Accept higher write latency. PostgreSQL synchronous_commit = on.
- **Leader-follower (async)**: read-heavy apps (blogs, social feeds) where replica lag is acceptable. Route analytics and reporting to replicas to offload the leader.
- **Multi-leader**: multi-datacenter writes where users in different regions must be able to write independently. Requires a conflict resolution strategy — plan it explicitly.
- **Leaderless (Cassandra/DynamoDB)**: always-on write availability, massive write throughput, global distribution, eventual consistency is acceptable. IoT ingestion, activity tracking, shopping carts.

## Trade-offs & Gotchas

- **Replication lag**: async followers may be seconds or minutes behind the leader. A user who just wrote their profile may immediately read from a replica and see the old data. Mitigate with **read-your-writes consistency**: route writes and subsequent reads for the same session to the leader (or use synchronous replication).
- **Failover complexity**: promoting a follower to leader is not trivial. The follower may be behind — promoting it means losing unreplicated writes. Automated failover tools (Patroni for Postgres, Orchestrator for MySQL) handle this but require careful configuration.
- **Split-brain**: if the leader fails and two nodes each believe they are the new leader, you get conflicting writes on both. Fencing (STONITH, distributed locks) and consensus protocols (Raft, Paxos) prevent this.
- **Quorum tuning**: setting W=1, R=1 (N=3) maximizes availability but gives no consistency — any single replica's stale value satisfies a read. W=3, R=1 maximizes read speed but writes must succeed on all replicas. Tune W+R > N for consistency.
- **Monotonic reads**: with multiple replicas, a user reading twice may see newer data first then older data if the second read hits a more lagged replica. Fix: pin a user's reads to a consistent replica (session affinity).
- **Conflict resolution in multi-leader**: Last-Write-Wins (LWW) using timestamps is lossy — NTP clock drift means "last" is unreliable. Prefer vector clocks or application-level merge logic for correctness.

## Architecture Diagram

```
Leader-Follower (Async):
  [Writes] --> [Leader]
                  |
          WAL/binlog stream
         /         |        \
  [Follower1] [Follower2] [Follower3]
  (may lag)   (may lag)   (may lag)
  [Reads can be served from any follower]

Leader-Follower (Semi-Sync):
  [Write] --> [Leader] --> [Sync Follower] --> ACK
                    \
                     --> [Async Follower1,2] (background)

Multi-Leader:
  [DC-West]              [DC-East]
  [Leader A] <-replicate-> [Leader B]
  |                          |
  Writes                   Writes
  CONFLICT if same row updated concurrently
  -> resolve: LWW | merge | CRDT

Leaderless (N=3, W=2, R=2):
  [Client]
    |-- write --> [Node1] ACK
    |-- write --> [Node2] ACK  <- 2 ACKs = quorum met
    |-- write --> [Node3] (may be down, ok)

  [Client]
    |-- read --> [Node1] v=5
    |-- read --> [Node2] v=5  <- 2 reads = quorum, return v=5
    (Node3 has v=4 but not queried enough to matter)
```

## Key Points for Interviews

- Leader-follower async is the default for most production systems — know its failure modes (lag, split-brain, failover data loss).
- Always mention replication lag when discussing replica reads. Propose read-your-writes or sticky sessions as mitigations.
- Quorum formula: W + R > N guarantees reading at least one node that has the latest write. Know this and be able to derive the trade-offs for different W/R combinations.
- Multi-leader = write conflicts. State your conflict resolution strategy upfront.
- Leaderless = Dynamo-style = Cassandra/DynamoDB. Great for write availability, weak on consistency without careful quorum tuning.
- Mention Raft or Paxos if asked about consensus — these are used to elect leaders and prevent split-brain, not for all replication.
"##;
/// `sharding.md`.
pub const SHARDING: &'static str = r##"---
title: "Database Sharding"
tags: [sharding, horizontal-scaling, consistent-hashing, shard-key, partitioning, hotspot]
difficulty: hard
estimated_time: 25min
---

## Overview

**Sharding** (horizontal partitioning) splits a large dataset across multiple database nodes, each owning a subset of the data called a **shard**. Unlike replication (which copies the same data), sharding distributes different data to different nodes — each shard holds data no other shard holds. The goal is to scale both storage and write throughput beyond what a single machine can handle.

**Vertical scaling** (scaling up) adds more CPU, RAM, or faster disks to a single machine. It is simpler and should be exhausted first — a modern cloud instance with 96 vCPUs, 384 GB RAM, and NVMe SSDs handles enormous workloads. Vertical scaling has a hard ceiling (no single machine beyond a certain size exists) and creates a single point of failure. **Horizontal scaling** (scaling out) adds more nodes, each handling a portion of the load. More complex to operate but theoretically unbounded.

**Shard key selection** is the most consequential sharding decision. A bad shard key creates **hotspots** — one shard receiving disproportionate traffic while others sit idle. Hotspots are the #1 sharding failure mode. An ideal shard key distributes writes evenly, maps naturally to the most common access pattern, and does not change after being set. Common approaches: hash of user ID (even distribution, no range queries), range partitioning by timestamp (enables time-range scans but risks write hotspots on the most-recent shard), and compound keys.

**Consistent hashing** is the standard algorithm for assigning keys to shards. Keys and shard nodes are placed on a virtual ring using their hash values. A key is assigned to the first node clockwise from its position on the ring. When a node is added or removed, only the keys between the new node and its predecessor need to be remapped — O(K/N) keys move rather than O(K). **Virtual nodes** (vnodes) assign each physical node multiple positions on the ring, improving load balance when nodes have different capacities and reducing hot-spot risk during node failures.

## When to Use

- **Don't shard until you must**: operational complexity is high. Try vertical scaling, read replicas, caching, and query optimization first.
- **Shard by user ID**: default for multi-tenant SaaS — all data for a user lives on one shard, enabling efficient single-user queries.
- **Shard by geographic region**: data residency requirements, or latency — route EU users to EU shards.
- **Range sharding by time**: time-series / event data where you query by time range. Archive old shards as cold storage.
- **Hash sharding**: when your primary access pattern is key-value lookups and you need the most even write distribution.

## Trade-offs & Gotchas

- **Cross-shard queries are expensive**: a `JOIN` or aggregation spanning all shards requires a scatter-gather — query every shard, then merge results in the application layer. This is slow and should be avoided. Design your shard key so that the most common queries touch a single shard.
- **Hotspots from bad shard keys**: sharding by `last_name` puts all "Smith" users on one shard; sharding by `created_at` puts all new writes on the latest shard. Test your key's distribution before committing.
- **Resharding is painful**: adding or removing shards requires moving data. Without consistent hashing, this means remapping all keys. Even with consistent hashing, online resharding requires care — dual-read or background migration strategies.
- **Transactions across shards**: ACID transactions do not span shards natively. Cross-shard transactions require distributed two-phase commit (2PC), which is slow and complex. Design to avoid them; use saga pattern or eventual consistency where unavoidable.
- **Shard key immutability**: if a row's shard key changes (e.g., a user changes their username and it's the shard key), you must move the row to a new shard — complex and dangerous. Choose shard keys that never change (internal IDs, UUIDs).
- **Uneven shard growth**: range shards can grow at different rates over time — the "active" shard always has more recent (and possibly hotter) data. Plan for periodic rebalancing.

## Architecture Diagram

```
Horizontal vs Vertical Scaling:
  Vertical (Scale Up):          Horizontal (Scale Out / Sharding):
  +------------------+          +--------+  +--------+  +--------+
  | Single BIG node  |          | Shard1 |  | Shard2 |  | Shard3 |
  | CPU: 96 cores    |          | u:0-33%|  | u:34-66|  |u:67-100|
  | RAM: 384 GB      |          +--------+  +--------+  +--------+
  | Limit: 1 machine |          | Limit: add more shards |
  +------------------+          +------------------------+

Consistent Hashing Ring (N=4 nodes):
           0
         / | \
  Node D   |   Node A
   270     |     90
         \ | /
  Node C   |   Node B
          180

  Key "user:1" hashes to position 40  --> Node A (nearest clockwise)
  Key "user:2" hashes to position 200 --> Node C
  Add Node E at position 60: only keys 40-60 move from A to E

Shard Key Comparison:
  user_id (hash)   -> even distribution, no range scans
  email (hash)     -> even distribution, lookups by email only
  created_at       -> range queries OK, new-record hotspot
  region           -> geo-local, uneven if regions differ in size
  last_name        -> bad: alphabetic clustering creates skew
```

## Key Points for Interviews

- Sharding is a last resort. State what you'd try first: vertical scaling, read replicas, caching, indexing.
- Lead with shard key selection and justify it. Interviewers want to hear you anticipate hotspots.
- Consistent hashing minimizes key movement on topology changes — describe the ring and virtual nodes.
- Cross-shard operations are the Achilles heel: scatter-gather reads, no native ACID transactions. Design your access patterns to avoid them.
- Mention virtual nodes (vnodes) for load balancing across heterogeneous hardware.
- Resharding requires a migration strategy — dual-read, background copy, or blue-green shard promotion.
- In practice, managed services (DynamoDB, Spanner, CockroachDB, Vitess for MySQL) handle sharding transparently. Mentioning them shows production awareness.
"##;
/// `sql-vs-nosql.md`.
pub const SQL_VS_NOSQL: &'static str = r##"---
title: "SQL vs NoSQL"
tags: [sql, nosql, relational, document, key-value, column-store, schema, acid]
difficulty: easy
estimated_time: 15min
---

## Overview

**SQL (relational) databases** organize data into tables with a fixed schema, enforce relationships via foreign keys, and guarantee **ACID** transactions. Every row in a table shares the same columns, and the schema must be defined before inserting data. PostgreSQL, MySQL, and SQLite are the dominant open-source options. SQL excels when your data is structured, relationships between entities matter, and correctness is non-negotiable (financial records, user accounts, inventory).

**NoSQL** is an umbrella term covering four main models: **document stores** (MongoDB, CouchDB — JSON-like documents with flexible schemas), **key-value stores** (Redis, DynamoDB — fast lookups by a single key), **wide-column stores** (Cassandra, HBase — rows with dynamic columns, optimized for time-series and write-heavy workloads), and **graph databases** (Neo4j — nodes and edges for relationship-heavy queries). NoSQL databases trade ACID guarantees and schema rigidity for horizontal scalability, flexible schemas, and higher write throughput.

The choice is rarely binary. Modern systems often use both: PostgreSQL for transactional records, Redis for caching, and Cassandra or DynamoDB for high-volume event or time-series data. The real decision is about data shape, access patterns, consistency requirements, and scale — not brand loyalty.

## When to Use

- **SQL**: structured data with well-defined relationships, complex multi-table queries (`JOIN`s), strong consistency required, team familiar with relational modeling. E-commerce orders, banking, CMS, SaaS apps.
- **Document (MongoDB)**: semi-structured or variable-schema data (product catalogs, user profiles), rapid iteration where schema changes are frequent, nested/hierarchical data that maps naturally to JSON.
- **Key-value (Redis, DynamoDB)**: simple lookup by ID, session storage, caches, feature flags, shopping carts. Access pattern is always by primary key — no ad-hoc querying.
- **Wide-column (Cassandra, HBase)**: massive write throughput, time-series data, IoT sensor streams, activity feeds. Data is always queried by partition key + optional clustering columns.
- **Graph (Neo4j)**: relationship traversal is the primary access pattern — social networks, fraud detection, recommendation engines.

## Trade-offs & Gotchas

- **Schema flexibility is a double-edged sword**: NoSQL's schemaless nature speeds up early development but causes pain at scale when documents drift apart in shape. Enforce a schema at the application layer (e.g., JSON Schema validation, ODM libraries).
- **NoSQL does not mean no transactions**: MongoDB 4.0+ supports multi-document ACID transactions; DynamoDB supports transactions across items. But they are costlier than native SQL transactions, so avoid them in hot paths.
- **JOINs vs denormalization**: NoSQL avoids JOINs by embedding related data or duplicating it across documents/rows. Reads become fast, but updates must touch multiple locations — write amplification and consistency are your new problems.
- **SQL scales horizontally too** — with read replicas, sharding (Citus for Postgres), or NewSQL systems (CockroachDB, Spanner). Don't assume SQL can't scale; it just requires more explicit engineering effort.
- **Indexes are critical in both worlds**: a missing index turns a millisecond SQL lookup into a full table scan. NoSQL systems have the same failure mode — a Cassandra `ALLOW FILTERING` query or a MongoDB collection scan on a large dataset will time out in production.

## Architecture Diagram

```
SQL (Relational):
  users            orders
  +----+------+    +----+---------+--------+
  | id | name |    | id | user_id | amount |
  +----+------+    +----+---------+--------+
  |  1 | Alice | <--| 10 |       1 |  49.99 |
  |  2 | Bob   |    | 11 |       1 | 120.00 |
  +----+------+    +----+---------+--------+
  Schema enforced, JOINs supported, ACID guaranteed

NoSQL Document (MongoDB):
  {
    "_id": "user:1",
    "name": "Alice",
    "orders": [
      { "id": 10, "amount": 49.99 },
      { "id": 11, "amount": 120.00 }
    ]
  }
  Flexible schema, embedded data, no JOINs needed

NoSQL Wide-Column (Cassandra):
  Partition Key: user_id | Clustering Key: event_time
  --------------------------------------------------
  user:1  | 2024-01-01T10:00 | page_view | /home
  user:1  | 2024-01-01T10:05 | click     | buy_btn
  Optimized for: "get all events for user X, ordered by time"
```

## Key Points for Interviews

- State your access patterns first, then choose the database — not the other way around.
- SQL is not slow; unindexed SQL on large tables is slow. NoSQL is not fast; a Cassandra query without a partition key is a cluster scan.
- "NoSQL = no schema" is a myth — you still have an implicit schema enforced in application code.
- Mention denormalization trade-offs: faster reads, more complex writes, risk of inconsistency.
- For FAANG-scale systems, the answer is often polyglot persistence: SQL for source of truth, NoSQL for derived/cached data.
- Know the four NoSQL families and a real product for each. Interviewers will probe whether you know when Cassandra beats MongoDB or vice versa.
"##;
/// `transactions-acid.md`.
pub const TRANSACTIONS_ACID: &'static str = r##"---
title: "Transactions & ACID"
tags: [transactions, acid, atomicity, consistency, isolation, durability, mvcc, isolation-levels]
difficulty: medium
estimated_time: 20min
---

## Overview

A **transaction** is a sequence of database operations treated as a single unit of work. Either all operations succeed (**commit**) or none of them do (**rollback**). Transactions are the mechanism that turns a database into a reliable system rather than a fast file. **ACID** is the set of properties that define a correct transaction implementation.

**Atomicity**: all-or-nothing. A transaction either commits completely or is rolled back completely — no partial writes survive. If power fails mid-transaction, the database uses its write-ahead log (WAL) to undo any partially-applied changes on restart. **Consistency**: a transaction takes the database from one valid state to another, respecting all defined constraints (foreign keys, unique constraints, check constraints). Consistency is partly a database guarantee and partly an application contract — the app must write logically valid data. **Durability**: once a transaction commits, it is permanent. The WAL ensures committed data survives crashes; the log is flushed to disk before the `COMMIT` acknowledgement is sent. **Isolation**: concurrent transactions behave as if they run serially — one cannot see another's intermediate state. Isolation is the most nuanced property and is controlled by **isolation levels**.

**Isolation levels** trade correctness for performance. Four standard levels (weakest to strongest): **Read Uncommitted** — can read uncommitted (dirty) writes from other transactions; almost never used. **Read Committed** — only sees committed data; prevents dirty reads but allows non-repeatable reads (same row read twice in a transaction may return different values). The default in PostgreSQL and Oracle. **Repeatable Read** — a transaction sees a consistent snapshot of committed data as of its start time; prevents non-repeatable reads but allows phantom reads (new rows matching a query may appear). MySQL InnoDB default. **Serializable** — full isolation; transactions appear to execute one at a time; prevents all anomalies but is the most expensive. Most databases implement isolation via **MVCC** (Multi-Version Concurrency Control): writes create new row versions instead of overwriting, and each transaction reads a consistent snapshot without blocking readers.

## When to Use

- **Read Committed**: the safe default for most OLTP workloads. Prevents dirty reads with minimal overhead.
- **Repeatable Read**: financial calculations, inventory checks — anywhere the same row is read twice in a transaction and must return consistent results.
- **Serializable**: counter increments, seat/ticket reservations, any check-then-act pattern where concurrent updates would produce incorrect results (e.g., "book the last seat"). Accept the throughput cost.
- **Explicit transactions** (`BEGIN` / `COMMIT`): whenever you perform multiple related writes that must all succeed together — transferring money between accounts, creating an order with its line items.

## Trade-offs & Gotchas

- **Lost update**: two transactions read the same row, both compute a new value based on what they read, and both write — one overwrites the other's update. Classic example: two sessions both read a counter as 5, both add 1, both write 6 instead of 7. Fix: `SELECT ... FOR UPDATE` (pessimistic lock), `UPDATE ... WHERE value = 5` (optimistic lock / CAS), or `UPDATE counter SET value = value + 1` (atomic increment in SQL).
- **Phantom reads**: a transaction reads all rows matching a condition, another transaction inserts a new matching row and commits, the first re-queries and sees the phantom row. Prevented by Serializable; Repeatable Read prevents it in PostgreSQL via MVCC snapshots but not in all databases.
- **Deadlock**: two transactions each hold a lock the other needs. Databases detect and resolve deadlocks by rolling back one transaction. Application code must handle `deadlock detected` errors and retry. Prevent deadlocks by always acquiring locks in a consistent order.
- **Long transactions are dangerous**: they hold locks, prevent MVCC garbage collection (table bloat in Postgres), and increase rollback cost. Keep transactions short. Never hold a transaction open while waiting for user input.
- **`COMMIT` latency = fsync latency**: durability requires flushing the WAL to disk. Cloud databases on network storage can have fsync latency of 1–10ms per commit. Batch multiple writes into one transaction to amortize this cost.
- **Distributed transactions (2PC)**: spanning a transaction across multiple databases or services requires two-phase commit — coordinator asks all participants to prepare, then commits if all agree. 2PC is slow and the coordinator is a single point of failure. Prefer sagas (compensating transactions) for microservices.

## Architecture Diagram

```
ACID Properties:
  A - Atomicity:    [op1][op2][op3] -> all commit, or all rollback
  C - Consistency:  constraints hold before and after transaction
  I - Isolation:    concurrent txns don't see each other's partial state
  D - Durability:   committed data survives crashes (WAL flushed to disk)

Isolation Levels (weakest -> strongest):
  Level             | Dirty Read | Non-Repeatable | Phantom Read
  ------------------+------------+----------------+-------------
  Read Uncommitted  |    YES     |      YES       |     YES
  Read Committed    |    no      |      YES       |     YES    <- PG default
  Repeatable Read   |    no      |      no        |     YES    <- MySQL default
  Serializable      |    no      |      no        |     no

MVCC (Multi-Version Concurrency Control):
  Write txn (T2) updates row:    row_v1(xmin=T1) | row_v2(xmin=T2, xmax=inf)
  Read txn (T1, snapshot @ T1):  sees row_v1 only (T2 not in snapshot)
  -> No read-write blocking; readers never block writers

Lost Update - Problem:
  T1: READ x=5   T2: READ x=5
  T1: WRITE x=6  T2: WRITE x=6  <- T1's update lost!

Lost Update - Fix (SELECT FOR UPDATE):
  T1: SELECT x=5 FOR UPDATE  <- acquires lock
  T2: SELECT x=5 FOR UPDATE  <- blocks, waits
  T1: WRITE x=6, COMMIT      <- lock released
  T2: wakes, reads x=6, WRITE x=7, COMMIT  <- correct
```

## Key Points for Interviews

- Know all four ACID properties and give a concrete example of each.
- Isolation levels are the most nuanced — be able to describe what anomaly each level prevents and which it allows.
- Lost update is the most common ACID pitfall in application code. Know `SELECT FOR UPDATE`, optimistic locking (CAS), and atomic SQL increments as fixes.
- MVCC is how modern databases achieve isolation without blocking reads — mention it to show depth.
- Long transactions are a production anti-pattern — table bloat, lock contention, slow rollbacks.
- For distributed systems, 2PC is slow and fragile. Mention the saga pattern as the modern alternative for cross-service transactions.
- Serializable prevents all anomalies but has the highest cost. Most apps don't need it — audit your actual anomaly risk and choose the weakest level that covers it.
"##;
/// The files of this module's content directory.
pub open spec fn files_spec() -> Seq<ContentFileView> {
    seq![
        ContentFileView { path: "databases/cap-theorem.md"@, contents: CAP_THEOREM@ },
        ContentFileView { path: "databases/consistency-models.md"@, contents: CONSISTENCY_MODELS@ },
        ContentFileView { path: "databases/cqrs-event-sourcing.md"@, contents: CQRS_EVENT_SOURCING@ },
        ContentFileView { path: "databases/databases-compared.md"@, contents: DATABASES_COMPARED@ },
        ContentFileView { path: "databases/indexing.md"@, contents: INDEXING@ },
        ContentFileView { path: "databases/pacelc.md"@, contents: PACELC@ },
        ContentFileView { path: "databases/replication.md"@, contents: REPLICATION@ },
        ContentFileView { path: "databases/sharding.md"@, contents: SHARDING@ },
        ContentFileView { path: "databases/sql-vs-nosql.md"@, contents: SQL_VS_NOSQL@ },
        ContentFileView { path: "databases/transactions-acid.md"@, contents: TRANSACTIONS_ACID@ },
    ]
}

/// The files of this module's content directory.
pub fn files() -> (files: Vec<ContentFile>)
    ensures
        files@.map_values(|f: ContentFile| f@) == files_spec(),
{
    let mut files: Vec<ContentFile> = Vec::new();
    files.push(ContentFile { path: "databases/cap-theorem.md", contents: CAP_THEOREM });
    files.push(ContentFile { path: "databases/consistency-models.md", contents: CONSISTENCY_MODELS });
    files.push(ContentFile { path: "databases/cqrs-event-sourcing.md", contents: CQRS_EVENT_SOURCING });
    files.push(ContentFile { path: "databases/databases-compared.md", contents: DATABASES_COMPARED });
    files.push(ContentFile { path: "databases/indexing.md", contents: INDEXING });
    files.push(ContentFile { path: "databases/pacelc.md", contents: PACELC });
    files.push(ContentFile { path: "databases/replication.md", contents: REPLICATION });
    files.push(ContentFile { path: "databases/sharding.md", contents: SHARDING });
    files.push(ContentFile { path: "databases/sql-vs-nosql.md", contents: SQL_VS_NOSQL });
    files.push(ContentFile { path: "databases/transactions-acid.md", contents: TRANSACTIONS_ACID });
    assert(files@.map_values(|f: ContentFile| f@) =~= files_spec());
    files
}

/// Every file of this module's content directory lies under `databases/`.
pub proof fn lemma_files_under_directory()
    ensures
        files_spec().len() == 10,
        forall|k: int|
            0 <= k < files_spec().len() ==> "databases/"@.is_prefix_of(#[trigger] files_spec()[k].path),
{
    reveal_strlit("databases/");
    reveal_strlit("databases/cap-theorem.md");
    reveal_strlit("databases/consistency-models.md");
    reveal_strlit("databases/cqrs-event-sourcing.md");
    reveal_strlit("databases/databases-compared.md");
    reveal_strlit("databases/indexing.md");
    reveal_strlit("databases/pacelc.md");
    reveal_strlit("databases/replication.md");
    reveal_strlit("databases/sharding.md");
    reveal_strlit("databases/sql-vs-nosql.md");
    reveal_strlit("databases/transactions-acid.md");
    assert("databases/cap-theorem.md"@.subrange(0, 10) =~= "databases/"@);
    assert("databases/consistency-models.md"@.subrange(0, 10) =~= "databases/"@);
    assert("databases/cqrs-event-sourcing.md"@.subrange(0, 10) =~= "databases/"@);
    assert("databases/databases-compared.md"@.subrange(0, 10) =~= "databases/"@);
    assert("databases/indexing.md"@.subrange(0, 10) =~= "databases/"@);
    assert("databases/pacelc.md"@.subrange(0, 10) =~= "databases/"@);
    assert("databases/replication.md"@.subrange(0, 10) =~= "databases/"@);
    assert("databases/sharding.md"@.subrange(0, 10) =~= "databases/"@);
    assert("databases/sql-vs-nosql.md"@.subrange(0, 10) =~= "databases/"@);
    assert("databases/transactions-acid.md"@.subrange(0, 10) =~= "databases/"@);
}

} // verus!
